//! The decision core of the OpenCodex desktop shell: the tray's update
//! lifecycle, the owned/attached proxy state machine, the loopback-only host
//! policy for runtime handoffs, and the text the shell builds for its URLs,
//! health probes, control files and logs.

pub mod phase;
pub mod text;
pub mod host;
pub mod health;
pub mod control;
pub mod proxy;
pub mod updater;
