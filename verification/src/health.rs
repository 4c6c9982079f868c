//! Runtime handoffs and health probes: what the shell sends to a proxy named
//! in a handoff, what it accepts back, and the dashboard address it then opens.

use vstd::prelude::*;
use vstd::string::StrSliceExecFns;
use vstd::string::StringExecFns;
use crate::host::{display_host, url_host};
use crate::text::{
    decimal, find_text, is_prefix_of, push_decimal, split_once, starts_with_text, substring,
    text_eq,
};

verus! {

/// The runtime handoff a proxy leaves for the shell: its process id, its
/// port and, where it says so, its host. The shell treats it as untrusted.
#[derive(Debug)]
pub struct RuntimeState {
    pub pid: u32,
    pub port: u16,
    pub hostname: Option<String>,
}

/// A proxy's answer to `GET /healthz`.
#[derive(Debug)]
pub struct Healthz {
    pub service: String,
    pub pid: u32,
}

/// A proxy whose identity the shell has checked.
#[derive(Debug)]
pub struct LiveProxy {
    pub pid: u32,
    pub port: u16,
    pub hostname: String,
}

/// A live proxy as plain values.
pub struct LiveProxyView {
    pub pid: u32,
    pub port: u16,
    pub hostname: Seq<char>,
}

impl View for LiveProxy {
    type V = LiveProxyView;

    open spec fn view(&self) -> LiveProxyView {
        LiveProxyView { pid: self.pid, port: self.port, hostname: self.hostname@ }
    }
}

/// The dashboard's address for a proxy on `hostname` and `port`.
pub open spec fn dashboard_address(hostname: Seq<char>, port: u16) -> Seq<char> {
    "http://"@ + url_host(hostname) + ":"@ + decimal(port as nat) + "/"@
}

impl LiveProxy {
    /// The address of the dashboard that this proxy serves.
    pub fn dashboard_url(&self) -> (r: String)
        ensures
            r@ == dashboard_address(self.hostname@, self.port),
    {
        let mut r = String::from_str("http://");
        let host = display_host(self.hostname.as_str());
        r.append(host.as_str());
        r.append(":");
        push_decimal(&mut r, self.port as u64);
        r.append("/");
        r
    }

    /// A copy of this proxy.
    pub fn duplicate(&self) -> (r: LiveProxy)
        ensures
            r@ == self@,
    {
        LiveProxy { pid: self.pid, port: self.port, hostname: self.hostname.clone() }
    }

    /// Whether the two proxies are the same: same process, port and host.
    pub fn same_as(&self, other: &LiveProxy) -> (r: bool)
        ensures
            r == (self@ == other@),
    {
        self.pid == other.pid && self.port == other.port && text_eq(
            self.hostname.as_str(),
            other.hostname.as_str(),
        )
    }
}

/// A health answer identifies the proxy of a handoff: it comes from an
/// OpenCodex service with the handoff's process id.
pub open spec fn identity_matches(state_pid: u32, service: Seq<char>, health_pid: u32) -> bool {
    service == "opencodex"@ && health_pid == state_pid
}

/// Checks a health answer against a runtime handoff.
pub fn is_verified_identity(state: &RuntimeState, health: &Healthz) -> (r: bool)
    ensures
        r == identity_matches(state.pid, health.service@, health.pid),
{
    text_eq(health.service.as_str(), "opencodex") && health.pid == state.pid
}

/// The health request the shell sends to a proxy on `hostname`.
pub open spec fn health_request_text(hostname: Seq<char>) -> Seq<char> {
    "GET /healthz HTTP/1.1\r\nHost: "@ + url_host(hostname) + "\r\nConnection: close\r\n\r\n"@
}

/// Writes the health request for a proxy on `hostname`.
pub fn health_request(hostname: &str) -> (r: String)
    ensures
        r@ == health_request_text(hostname@),
{
    let mut r = String::from_str("GET /healthz HTTP/1.1\r\nHost: ");
    let host = display_host(hostname);
    r.append(host.as_str());
    r.append("\r\nConnection: close\r\n\r\n");
    r
}

/// The body of a health response whose status line reports `200` over
/// HTTP/1.1 or HTTP/1.0; `None` for any other response, or one without a
/// blank line after its head.
pub open spec fn health_body(response: Seq<char>) -> Option<Seq<char>> {
    match split_once(response, "\r\n\r\n"@) {
        Some((head, body)) => if is_prefix_of("HTTP/1.1 200"@, head) || is_prefix_of(
            "HTTP/1.0 200"@,
            head,
        ) {
            Some(body)
        } else {
            None
        },
        None => None,
    }
}

/// Takes the body out of a health response, where the response succeeded.
pub fn health_response_body(response: &str) -> (r: Option<String>)
    ensures
        match r {
            Some(b) => health_body(response@) == Some(b@),
            None => health_body(response@) is None,
        },
{
    let sep = "\r\n\r\n";
    let at = match find_text(response, sep) {
        Some(at) => at,
        None => {
            return None;
        },
    };
    let n = response.unicode_len();
    let m = sep.unicode_len();
    let head = substring(response, 0, at);
    if starts_with_text(head.as_str(), "HTTP/1.1 200") || starts_with_text(
        head.as_str(),
        "HTTP/1.0 200",
    ) {
        Some(substring(response, at + m, n))
    } else {
        None
    }
}

/// Only a 200 answer over HTTP/1.1 or HTTP/1.0 is a health answer: where
/// the head before the first blank line begins with such a status line, the
/// body is what follows the blank line; for any other status, or without a
/// blank line, there is no body.
pub proof fn lemma_health_body_needs_status_200(response: Seq<char>)
    ensures
        health_body(response) is Some ==> (split_once(response, "\r\n\r\n"@) matches Some(
            (head, body),
        ) && (is_prefix_of("HTTP/1.1 200"@, head) || is_prefix_of("HTTP/1.0 200"@, head))
            && health_body(response) == Some(body)),
        split_once(response, "\r\n\r\n"@) matches Some((head, body)) ==> ((is_prefix_of(
            "HTTP/1.1 200"@,
            head,
        ) || is_prefix_of("HTTP/1.0 200"@, head)) ==> health_body(response) == Some(body)),
        split_once(response, "\r\n\r\n"@) matches Some((head, _)) ==> (!is_prefix_of(
            "HTTP/1.1 200"@,
            head,
        ) && !is_prefix_of("HTTP/1.0 200"@, head) ==> health_body(response) is None),
        split_once(response, "\r\n\r\n"@) is None ==> health_body(response) is None,
{
}

/// Accepts the proxy of a handoff once its health answer matches: the proxy
/// is the handoff's process and port, on the canonical host the shell probed.
pub fn verified_live_proxy(state: &RuntimeState, hostname: String, health: &Healthz) -> (r:
    Option<LiveProxy>)
    ensures
        match r {
            Some(live) => identity_matches(state.pid, health.service@, health.pid) && live@
                == (LiveProxyView { pid: state.pid, port: state.port, hostname: hostname@ }),
            None => !identity_matches(state.pid, health.service@, health.pid),
        },
{
    if is_verified_identity(state, health) {
        Some(LiveProxy { pid: state.pid, port: state.port, hostname })
    } else {
        None
    }
}

} // verus!
