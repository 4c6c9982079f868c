//! The loopback-only host policy for runtime handoffs, and how a host is
//! written inside a URL.

use vstd::prelude::*;
use vstd::string::StrSliceExecFns;
use vstd::string::StringExecFns;
use crate::text::{
    ascii_fold, decimal, eq_ignore_ascii_case, lemma_decimal_digits, has_char, substring, text_eq, text_eq_ignore_ascii_case,
};

verus! {

/// An IP address, as the shell reads it: four octets or eight 16-bit segments.
#[derive(Clone, Copy, Debug, PartialEq, Eq)]
pub enum IpAddress {
    V4([u8; 4]),
    V6([u16; 8]),
}

/// The Unicode White_Space property, which `char::is_whitespace` tests:
/// the control characters tab to carriage return, space, next line,
/// no-break space, Ogham space mark, the spaces U+2000 to U+200A, the line
/// and paragraph separators, narrow no-break space, medium mathematical
/// space and ideographic space.
pub open spec fn unicode_white_space(c: char) -> bool {
    ||| '\u{9}' <= c <= '\u{d}'
    ||| c == ' '
    ||| c == '\u{85}'
    ||| c == '\u{a0}'
    ||| c == '\u{1680}'
    ||| '\u{2000}' <= c <= '\u{200a}'
    ||| c == '\u{2028}'
    ||| c == '\u{2029}'
    ||| c == '\u{202f}'
    ||| c == '\u{205f}'
    ||| c == '\u{3000}'
}

/// What parsing `text` as an IP address (`FromStr` for `IpAddr`) gives:
/// `None` where the text is not an address.
pub uninterp spec fn parsed_ip_address(text: Seq<char>) -> Option<IpAddress>;

/// How `Display` for `IpAddr` writes `addr`.
pub uninterp spec fn ip_text(addr: IpAddress) -> Seq<char>;

/// Whether `c` has the Unicode White_Space property (`char::is_whitespace`).
pub fn is_white_space(c: char) -> (r: bool)
    ensures
        r == unicode_white_space(c),
{
    ('\u{9}' <= c && c <= '\u{d}') || c == ' ' || c == '\u{85}' || c == '\u{a0}' || c
        == '\u{1680}' || ('\u{2000}' <= c && c <= '\u{200a}') || c == '\u{2028}' || c
        == '\u{2029}' || c == '\u{202f}' || c == '\u{205f}' || c == '\u{3000}'
}

/// `str::parse::<IpAddr>`, with the address taken apart into octets or
/// segments. Claimed: the outcome is a function of the text alone, named
/// `parsed_ip_address`.
#[verifier::external_body]
fn parse_ip_address(text: &str) -> (r: Option<IpAddress>)
    ensures
        r == parsed_ip_address(text@),
{
    match text.parse::<core::net::IpAddr>() {
        Ok(core::net::IpAddr::V4(a)) => Some(IpAddress::V4(a.octets())),
        Ok(core::net::IpAddr::V6(a)) => Some(IpAddress::V6(a.segments())),
        Err(_) => None,
    }
}

/// An IPv4 address in dot-decimal notation: the four octets in decimal,
/// divided by `.`.
pub open spec fn dotted_quad(o: Seq<u8>) -> Seq<char> {
    decimal(o[0] as nat) + seq!['.'] + decimal(o[1] as nat) + seq!['.'] + decimal(o[2] as nat)
        + seq!['.'] + decimal(o[3] as nat)
}

/// `ToString` for `IpAddr` (its `Display`), on the address put back
/// together. Claimed: the text is a function of the address alone, named
/// `ip_text`; an IPv4 address is written in dot-decimal notation, the IPv6
/// loopback address as `::1` (the canonical style of RFC 5952); and parsing
/// either text gives the address back.
#[verifier::external_body]
fn ip_address_text(addr: IpAddress) -> (r: String)
    ensures
        r@ == ip_text(addr),
        addr matches IpAddress::V4(o) ==> r@ == dotted_quad(o@) && parsed_ip_address(r@) == Some(
            addr,
        ),
        addr matches IpAddress::V6(s) && s@ == seq![0u16, 0, 0, 0, 0, 0, 0, 1] ==> r@ == seq![
            ':',
            ':',
            '1',
        ] && parsed_ip_address(r@) == Some(addr),
{
    match addr {
        IpAddress::V4(o) => core::net::IpAddr::from(o).to_string(),
        IpAddress::V6(s) => core::net::IpAddr::from(s).to_string(),
    }
}

/// A loopback address: `127.0.0.0/8`, or `::1`.
pub open spec fn is_loopback(addr: IpAddress) -> bool {
    match addr {
        IpAddress::V4(o) => o@[0] == 127,
        IpAddress::V6(s) => s@ == seq![0u16, 0, 0, 0, 0, 0, 0, 1],
    }
}

/// Whether `addr` is a loopback address (`IpAddr::is_loopback`).
pub fn address_is_loopback(addr: IpAddress) -> (r: bool)
    ensures
        r == is_loopback(addr),
{
    match addr {
        IpAddress::V4(o) => o[0] == 127,
        IpAddress::V6(s) => {
            let r = s[0] == 0 && s[1] == 0 && s[2] == 0 && s[3] == 0 && s[4] == 0 && s[5] == 0
                && s[6] == 0 && s[7] == 1;
            assert(r ==> s@ =~= seq![0u16, 0, 0, 0, 0, 0, 0, 1]);
            r
        },
    }
}

/// `s` without its leading whitespace.
pub open spec fn trim_start(s: Seq<char>) -> Seq<char>
    decreases s.len(),
{
    if s.len() > 0 && unicode_white_space(s[0]) {
        trim_start(s.drop_first())
    } else {
        s
    }
}

/// `s` without its trailing whitespace.
pub open spec fn trim_end(s: Seq<char>) -> Seq<char>
    decreases s.len(),
{
    if s.len() > 0 && unicode_white_space(s.last()) {
        trim_end(s.drop_last())
    } else {
        s
    }
}

/// `s` without leading and trailing whitespace (`str::trim`).
pub open spec fn trimmed(s: Seq<char>) -> Seq<char> {
    trim_end(trim_start(s))
}

/// Removes leading and trailing whitespace.
pub fn trim(s: &str) -> (r: String)
    ensures
        r@ == trimmed(s@),
{
    let n = s.unicode_len();
    let mut i: usize = 0;
    assert(s@.subrange(0, n as int) =~= s@);
    while i < n && is_white_space(s.get_char(i))
        invariant
            n == s@.len(),
            i <= n,
            trim_start(s@) == trim_start(s@.subrange(i as int, n as int)),
        decreases n - i,
    {
        assert(s@.subrange(i as int, n as int).drop_first() =~= s@.subrange(i + 1, n as int));
        i = i + 1;
    }
    let mut j: usize = n;
    while j > i && is_white_space(s.get_char(j - 1))
        invariant
            n == s@.len(),
            i <= j <= n,
            trim_start(s@) == s@.subrange(i as int, n as int),
            trimmed(s@) == trim_end(s@.subrange(i as int, j as int)),
        decreases j - i,
    {
        assert(s@.subrange(i as int, j as int).drop_last() =~= s@.subrange(i as int, j - 1));
        j = j - 1;
    }
    substring(s, i, j)
}

/// What stands inside `[` and `]` where the host is bracketed; `None` where
/// a bracket is unmatched.
pub open spec fn unbracketed(t: Seq<char>) -> Option<Seq<char>> {
    if (t.len() > 0 && t[0] == '[') || (t.len() > 0 && t.last() == ']') {
        if t.len() >= 2 && t[0] == '[' && t.last() == ']' {
            Some(t.subrange(1, t.len() - 1))
        } else {
            None
        }
    } else {
        Some(t)
    }
}

/// The host under which the shell may reach a proxy named in a runtime
/// handoff: loopback only. No host means `127.0.0.1`, as do `localhost` (in
/// any ASCII case), `0.0.0.0`, `::` and `[::]`; otherwise the (possibly
/// bracketed) text must be a loopback IP address, written back in its
/// canonical form. Anything else gets no host.
pub open spec fn loopback_host(hostname: Option<Seq<char>>) -> Option<Seq<char>> {
    match hostname {
        None => Some("127.0.0.1"@),
        Some(h) => {
            let t = trimmed(h);
            if eq_ignore_ascii_case(t, "localhost"@) || t == "0.0.0.0"@ || t == "::"@ || t
                == "[::]"@ {
                Some("127.0.0.1"@)
            } else {
                match unbracketed(t) {
                    None => None,
                    Some(a) => match parsed_ip_address(a) {
                        Some(ip) => if is_loopback(ip) {
                            Some(ip_text(ip))
                        } else {
                            None
                        },
                        None => None,
                    },
                }
            }
        },
    }
}

pub open spec fn opt_str_view(s: Option<&str>) -> Option<Seq<char>> {
    match s {
        Some(t) => Some(t@),
        None => None,
    }
}

pub open spec fn opt_string_view(s: Option<String>) -> Option<Seq<char>> {
    match s {
        Some(t) => Some(t@),
        None => None,
    }
}

/// A text that names a loopback address the way the shell writes it: it
/// parses to a loopback address whose own text it is.
pub open spec fn is_canonical_loopback_text(t: Seq<char>) -> bool {
    exists|a: IpAddress| is_loopback(a) && parsed_ip_address(t) == Some(a) && #[trigger] ip_text(a) == t
}

/// The text of a loopback address, as `Display` writes it and `FromStr`
/// reads it, canonicalizes to itself.
proof fn lemma_loopback_text_is_fixed(ip: IpAddress, s: Seq<char>)
    requires
        is_loopback(ip),
        parsed_ip_address(s) == Some(ip),
        ip_text(ip) == s,
        match ip {
            IpAddress::V4(o) => s == dotted_quad(o@),
            IpAddress::V6(_) => s == seq![':', ':', '1'],
        },
    ensures
        loopback_host(Some(s)) == Some(s),
        is_canonical_loopback_text(s),
{
    reveal_strlit("localhost");
    reveal_strlit("0.0.0.0");
    reveal_strlit("::");
    reveal_strlit("[::]");
    match ip {
        IpAddress::V4(o) => {
            lemma_decimal_digits(o@[0] as nat);
            lemma_decimal_digits(o@[3] as nat);
            let d0 = decimal(o@[0] as nat);
            let d3 = decimal(o@[3] as nat);
            assert(s[0] == d0[0]);
            assert(s.last() == d3[d3.len() - 1]);
            assert(o@[0] == 127);
            assert(decimal(127) == decimal(12).push('7'));
            assert(decimal(12) == decimal(1).push('2'));
            assert(d0 =~= seq!['1', '2', '7']);
            assert(s[0] == '1');
            assert(ascii_fold(s[0]) != ascii_fold("localhost"@[0]));
            assert(s != "0.0.0.0"@) by {
                assert("0.0.0.0"@[0] == '0');
            }
            assert(s != "::"@) by {
                assert("::"@[0] == ':');
            }
            assert(s != "[::]"@) by {
                assert("[::]"@[0] == '[');
            }
        },
        IpAddress::V6(_) => {
            assert(s.len() == 3);
            assert(s != "[::]"@) by {
                assert("[::]"@[0] == '[');
            }
        },
    }
    assert(trim_start(s) == s);
    assert(trim_end(s) == s);
    assert(trimmed(s) == s);
    assert(unbracketed(s) == Some(s));
}

/// Canonicalizes the host of a runtime handoff, refusing every host that is
/// not a loopback host. What it gives is the text of a loopback address,
/// which canonicalizes to itself.
pub fn canonical_loopback_host(hostname: Option<&str>) -> (r: Option<String>)
    ensures
        opt_string_view(r) == loopback_host(opt_str_view(hostname)),
        r matches Some(t) ==> is_canonical_loopback_text(t@) && loopback_host(Some(t@)) == Some(
            t@,
        ),
{
    let h = match hostname {
        None => {
            return Some(localhost_text());
        },
        Some(h) => h,
    };
    let host = trim(h);
    let t = host.as_str();
    if text_eq_ignore_ascii_case(t, "localhost") || text_eq(t, "0.0.0.0") || text_eq(t, "::")
        || text_eq(t, "[::]") {
        return Some(localhost_text());
    }
    let n = t.unicode_len();
    let opens = n > 0 && t.get_char(0) == '[';
    let closes = n > 0 && t.get_char(n - 1) == ']';
    let inner = if opens || closes {
        if n >= 2 && opens && closes {
            substring(t, 1, n - 1)
        } else {
            return None;
        }
    } else {
        substring(t, 0, n)
    };
    assert(t@.subrange(0, n as int) =~= t@);
    match parse_ip_address(inner.as_str()) {
        Some(ip) => {
            if address_is_loopback(ip) {
                let out = ip_address_text(ip);
                proof {
                    lemma_loopback_text_is_fixed(ip, out@);
                }
                Some(out)
            } else {
                None
            }
        },
        None => None,
    }
}

/// `127.0.0.1`, written as the shell writes every address.
fn localhost_text() -> (r: String)
    ensures
        r@ == "127.0.0.1"@,
        is_canonical_loopback_text(r@),
        loopback_host(Some(r@)) == Some(r@),
{
    let ip = IpAddress::V4([127u8, 0, 0, 1]);
    let out = ip_address_text(ip);
    proof {
        reveal_strlit("127.0.0.1");
        let o = seq![127u8, 0, 0, 1];
        assert([127u8, 0, 0, 1]@ =~= o);
        assert(decimal(127) == decimal(12).push('7'));
        assert(decimal(12) == decimal(1).push('2'));
        assert(decimal(127) =~= seq!['1', '2', '7']);
        assert(decimal(0) =~= seq!['0']);
        assert(decimal(1) =~= seq!['1']);
        assert(out@ =~= "127.0.0.1"@);
        lemma_loopback_text_is_fixed(ip, out@);
    }
    out
}

/// How a host is written in a URL or a `Host` header: an IPv6 address (a
/// host with a `:`) goes in brackets.
pub open spec fn url_host(hostname: Seq<char>) -> Seq<char> {
    if hostname.contains(':') {
        "["@ + hostname + "]"@
    } else {
        hostname
    }
}

/// Writes a host for a URL.
pub fn display_host(hostname: &str) -> (r: String)
    ensures
        r@ == url_host(hostname@),
{
    if has_char(hostname, ':') {
        let mut r = String::from_str("[");
        r.append(hostname);
        r.append("]");
        r
    } else {
        String::from_str(hostname)
    }
}

} // verus!
