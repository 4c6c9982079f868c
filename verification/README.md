# opencodex_desktop

The decision core of the OpenCodex Windows desktop shell, verified with Verus.

- `src/phase.rs` — update phases and proxy statuses, with the tray texts for each.
- `src/text.rs` — character-level text helpers (search, prefixes, ASCII case folding, decimal and hex rendering).
- `src/host.rs` — the loopback-only host policy for runtime handoffs, and how hosts are written in URLs.
- `src/health.rs` — runtime handoffs, health requests and responses, identity checks, dashboard addresses.
- `src/control.rs` — control tokens and control-request files, the startup log, the OpenCodex home and the runtime layout, Windows ACL helpers.
- `src/proxy.rs` — the owned/attached proxy state machine.
- `src/updater.rs` — the update lifecycle, download progress, the tray view and startup events.

`app/main.rs` is the Tauri shell around the library: window, tray, processes, files, sockets and update downloads.
