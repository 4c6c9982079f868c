use opencodex_desktop::health::{
    health_request, health_response_body, is_verified_identity, verified_live_proxy, Healthz,
    LiveProxy, RuntimeState,
};

fn runtime_state_from_json(text: &str) -> RuntimeState {
    let value: serde_json::Value = serde_json::from_str(text).unwrap();
    RuntimeState {
        pid: value["pid"].as_u64().unwrap() as u32,
        port: value["port"].as_u64().unwrap() as u16,
        hostname: value["hostname"].as_str().map(|h| h.to_string()),
    }
}

fn healthz_from_json(text: &str) -> Healthz {
    let value: serde_json::Value = serde_json::from_str(text).unwrap();
    Healthz {
        service: value["service"].as_str().unwrap().to_string(),
        pid: value["pid"].as_u64().unwrap() as u32,
    }
}

#[test]
fn dashboard_url_uses_the_verified_runtime_endpoint() {
    let live = LiveProxy {
        pid: 42,
        port: 58195,
        hostname: "::1".to_string(),
    };
    assert_eq!(live.dashboard_url(), "http://[::1]:58195/");
}

#[test]
fn dashboard_url_for_ipv4_and_small_ports() {
    let live = LiveProxy { pid: 1, port: 0, hostname: "127.0.0.1".to_string() };
    assert_eq!(live.dashboard_url(), "http://127.0.0.1:0/");
    let live = LiveProxy { pid: 1, port: 65535, hostname: "127.0.0.1".to_string() };
    assert_eq!(live.dashboard_url(), "http://127.0.0.1:65535/");
}

#[test]
fn runtime_state_requires_a_matching_health_identity() {
    let state = runtime_state_from_json(r#"{"pid":42,"port":10100,"hostname":"127.0.0.1"}"#);
    let health = healthz_from_json(r#"{"service":"opencodex","pid":42}"#);
    assert!(is_verified_identity(&state, &health));
    assert!(!is_verified_identity(
        &state,
        &Healthz {
            service: "another-service".to_string(),
            pid: 42
        }
    ));
    assert!(!is_verified_identity(
        &state,
        &Healthz {
            service: "opencodex".to_string(),
            pid: 7
        }
    ));
}

#[test]
fn a_matching_health_answer_yields_the_handoff_endpoint() {
    let state = RuntimeState { pid: 42, port: 10100, hostname: None };
    let health = Healthz { service: "opencodex".to_string(), pid: 42 };
    let live = verified_live_proxy(&state, "127.0.0.1".to_string(), &health).unwrap();
    assert_eq!((live.pid, live.port, live.hostname.as_str()), (42, 10100, "127.0.0.1"));
    let other = Healthz { service: "opencodex".to_string(), pid: 43 };
    assert!(verified_live_proxy(&state, "127.0.0.1".to_string(), &other).is_none());
}

#[test]
fn health_request_names_the_bracketed_host() {
    assert_eq!(
        health_request("::1"),
        "GET /healthz HTTP/1.1\r\nHost: [::1]\r\nConnection: close\r\n\r\n"
    );
    assert_eq!(
        health_request("127.0.0.1"),
        "GET /healthz HTTP/1.1\r\nHost: 127.0.0.1\r\nConnection: close\r\n\r\n"
    );
}

#[test]
fn health_response_body_needs_a_200_status_and_a_blank_line() {
    assert_eq!(
        health_response_body("HTTP/1.1 200 OK\r\nContent-Type: a\r\n\r\n{\"pid\":1}").as_deref(),
        Some("{\"pid\":1}")
    );
    assert_eq!(
        health_response_body("HTTP/1.0 200 OK\r\n\r\nbody\r\n\r\nmore").as_deref(),
        Some("body\r\n\r\nmore")
    );
    assert_eq!(health_response_body("HTTP/1.1 503 Busy\r\n\r\n{}"), None);
    assert_eq!(health_response_body("HTTP/1.1 200 OK\r\n"), None);
    assert_eq!(health_response_body("HTTP/2 200\r\n\r\n{}"), None);
    assert_eq!(health_response_body("HTTP/1.1 200\r\n\r\n").as_deref(), Some(""));
}

#[test]
fn live_proxies_compare_by_endpoint() {
    let a = LiveProxy { pid: 1, port: 2, hostname: "::1".to_string() };
    let b = a.duplicate();
    assert!(a.same_as(&b));
    let c = LiveProxy { pid: 1, port: 2, hostname: "127.0.0.1".to_string() };
    assert!(!a.same_as(&c));
}
