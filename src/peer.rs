//! Syntax check of the name that a TLS peer is expected to present.
use vstd::prelude::*;

verus! {

/// Whether webpki accepts `s` as a DNS name to check a certificate against.
pub uninterp spec fn dns_name_valid(s: Seq<char>) -> bool;

/// The characters that may stand in a DNS name: ASCII letters, digits,
/// `-`, `_` and `.`.
pub open spec fn is_name_char(c: char) -> bool {
    ('a' <= c && c <= 'z') || ('A' <= c && c <= 'Z') || ('0' <= c && c <= '9') || c == '-'
        || c == '_' || c == '.'
}

/// The text of a checked DNS name.
pub uninterp spec fn dns_name_text(n: webpki::DNSName) -> Seq<char>;

/// Whether `t` is `s` with its ASCII capitals made small, every other
/// character kept.
pub open spec fn is_ascii_lowercase_of(t: Seq<char>, s: Seq<char>) -> bool {
    &&& t.len() == s.len()
    &&& forall|i: int|
        0 <= i < s.len() ==> (#[trigger] t[i]) as int == if 'A' <= s[i] && s[i] <= 'Z' {
            s[i] as int + 32
        } else {
            s[i] as int
        }
}

/// Relies on `webpki::DNSNameRef::try_from_ascii_str` (and `to_owned`): a
/// name comes back exactly when webpki's syntax check accepts the string.
/// That check reads the bytes one by one and refuses the empty string, any
/// byte other than a letter, a digit, `-`, `_` or `.`, and more than 253
/// bytes. `to_owned` keeps the name with its ASCII capitals made small.
#[verifier::external_body]
fn try_dns_name(s: &str) -> (r: Option<webpki::DNSName>)
    ensures
        r.is_some() == dns_name_valid(s@),
        r.is_some() ==> 0 < s@.len() <= 253,
        r.is_some() ==> is_ascii_lowercase_of(dns_name_text(r->Some_0), s@),
        r.is_some() ==> forall|i: int| 0 <= i < s@.len() ==> is_name_char(#[trigger] s@[i]),
{
    webpki::DNSNameRef::try_from_ascii_str(s).ok().map(|n| n.to_owned())
}

/// Checks a peer name before any byte is sent to the peer; `None` when it is
/// not a valid DNS name.
pub fn parse_peer_name(s: &String) -> (r: Option<webpki::DNSName>)
    ensures
        r.is_some() == dns_name_valid(s@),
        r.is_some() ==> is_ascii_lowercase_of(dns_name_text(r->Some_0), s@),
        s@.len() == 0 ==> r.is_none(),
        (exists|i: int| 0 <= i < s@.len() && !is_name_char(#[trigger] s@[i])) ==> r.is_none(),
{
    try_dns_name(s.as_str())
}

} // verus!
