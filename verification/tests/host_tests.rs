use opencodex_desktop::host::{canonical_loopback_host, display_host, is_white_space, trim};

#[test]
fn canonicalizes_only_local_runtime_hosts() {
    assert_eq!(canonical_loopback_host(None).as_deref(), Some("127.0.0.1"));
    assert_eq!(
        canonical_loopback_host(Some("localhost")).as_deref(),
        Some("127.0.0.1")
    );
    assert_eq!(
        canonical_loopback_host(Some("0.0.0.0")).as_deref(),
        Some("127.0.0.1")
    );
    assert_eq!(
        canonical_loopback_host(Some("::")).as_deref(),
        Some("127.0.0.1")
    );
    assert_eq!(
        canonical_loopback_host(Some("127.0.0.2")).as_deref(),
        Some("127.0.0.2")
    );
    assert_eq!(
        canonical_loopback_host(Some("[::1]")).as_deref(),
        Some("::1")
    );
    assert_eq!(canonical_loopback_host(Some("192.168.1.5")), None);
    assert_eq!(canonical_loopback_host(Some("example.com")), None);
    assert_eq!(canonical_loopback_host(Some("[::1")), None);
}

#[test]
fn loopback_aliases_ignore_case_and_surrounding_whitespace() {
    assert_eq!(
        canonical_loopback_host(Some("  LocalHost\t")).as_deref(),
        Some("127.0.0.1")
    );
    assert_eq!(
        canonical_loopback_host(Some("[::]")).as_deref(),
        Some("127.0.0.1")
    );
    assert_eq!(
        canonical_loopback_host(Some(" 127.1.2.3 ")).as_deref(),
        Some("127.1.2.3")
    );
}

#[test]
fn loopback_addresses_are_written_canonically() {
    assert_eq!(
        canonical_loopback_host(Some("0:0:0:0:0:0:0:1")).as_deref(),
        Some("::1")
    );
    assert_eq!(
        canonical_loopback_host(Some("[0:0::1]")).as_deref(),
        Some("::1")
    );
}

#[test]
fn unmatched_brackets_and_non_loopback_addresses_are_refused() {
    assert_eq!(canonical_loopback_host(Some("::1]")), None);
    assert_eq!(canonical_loopback_host(Some("[")), None);
    assert_eq!(canonical_loopback_host(Some("[]")), None);
    assert_eq!(canonical_loopback_host(Some("[127.0.0.1]")).as_deref(), Some("127.0.0.1"));
    assert_eq!(canonical_loopback_host(Some("::2")), None);
    assert_eq!(canonical_loopback_host(Some("::ffff:127.0.0.1")), None);
    assert_eq!(canonical_loopback_host(Some("128.0.0.1")), None);
    assert_eq!(canonical_loopback_host(Some("")), None);
    assert_eq!(canonical_loopback_host(Some("localhost.")), None);
}

#[test]
fn display_host_brackets_ipv6_hosts_only() {
    assert_eq!(display_host("::1"), "[::1]");
    assert_eq!(display_host("127.0.0.1"), "127.0.0.1");
    assert_eq!(display_host(""), "");
}

#[test]
fn trim_removes_unicode_whitespace_at_both_ends() {
    assert_eq!(trim("  a b \n"), "a b");
    assert_eq!(trim("\u{3000}x\u{a0}"), "x");
    assert_eq!(trim("   "), "");
    assert_eq!(trim(""), "");
}

#[test]
fn canonical_hosts_canonicalize_to_themselves() {
    for host in [None, Some("localhost"), Some("[::1]"), Some("127.9.8.7"), Some(" 0:0::1 ")] {
        let once = canonical_loopback_host(host).unwrap();
        assert_eq!(canonical_loopback_host(Some(&once)).as_deref(), Some(once.as_str()));
    }
}

#[test]
fn white_space_agrees_with_std() {
    for code in 0u32..0x3100 {
        if let Some(c) = char::from_u32(code) {
            assert_eq!(is_white_space(c), c.is_whitespace(), "{code:#x}");
        }
    }
}
