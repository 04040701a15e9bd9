//! The part of a destination URI that a connect attempt reads.
use vstd::prelude::*;
use vstd::string::*;

verus! {

/// The scheme whose destinations are reached over TLS.
pub open spec fn secure_scheme() -> Seq<char> {
    seq!['h', 't', 't', 'p', 's']
}

/// Scheme and host of a destination, as plain values.
pub struct Target {
    pub scheme: Option<String>,
    pub host: Option<String>,
}

/// Whether a scheme asks for TLS: an exact, case-sensitive match.
pub open spec fn is_secure_scheme(scheme: Option<Seq<char>>) -> bool {
    scheme == Some(secure_scheme())
}

/// The peer name offered for a destination: its host, or the empty name
/// when it has none (which no name check accepts).
pub open spec fn peer_name_of(host: Option<Seq<char>>) -> Seq<char> {
    match host {
        Some(h) => h,
        None => Seq::empty(),
    }
}

pub open spec fn opt_view(s: Option<String>) -> Option<Seq<char>> {
    match s {
        Some(v) => Some(v@),
        None => None,
    }
}

impl View for Target {
    type V = (Option<Seq<char>>, Option<Seq<char>>);

    open spec fn view(&self) -> Self::V {
        (opt_view(self.scheme), opt_view(self.host))
    }
}

/// The scheme of a URI, if it has one.
pub uninterp spec fn scheme_of(uri: hyper::Uri) -> Option<Seq<char>>;

/// The host of a URI, if it has one.
pub uninterp spec fn host_of(uri: hyper::Uri) -> Option<Seq<char>>;

/// Relies on `http::Uri::scheme_str`: the scheme of the URI, if it has one.
#[verifier::external_body]
fn uri_scheme(uri: &hyper::Uri) -> (r: Option<String>)
    ensures
        opt_view(r) == scheme_of(*uri),
{
    uri.scheme_str().map(String::from)
}

/// Relies on `http::Uri::host`: the host of the URI, if it has one.
#[verifier::external_body]
fn uri_host(uri: &hyper::Uri) -> (r: Option<String>)
    ensures
        opt_view(r) == host_of(*uri),
{
    uri.host().map(String::from)
}

impl Target {
    /// Reads scheme and host out of a URI.
    pub fn from_uri(uri: &hyper::Uri) -> (r: Target)
        ensures
            r@ == (scheme_of(*uri), host_of(*uri)),
    {
        Target { scheme: uri_scheme(uri), host: uri_host(uri) }
    }

    /// Whether this destination is reached over TLS.
    pub fn is_secure(&self) -> (r: bool)
        ensures
            r == is_secure_scheme(self@.0),
    {
        match &self.scheme {
            Some(s) => {
                let https = String::from_str("https");
                proof {
                    reveal_strlit("https");
                    assert(https@ =~= secure_scheme());
                }
                *s == https
            },
            None => false,
        }
    }

    /// The name that a TLS handshake with this destination would check.
    pub fn peer_name(&self) -> (r: String)
        ensures
            r@ == peer_name_of(self@.1),
    {
        match &self.host {
            Some(h) => h.clone(),
            None => String::new(),
        }
    }
}

} // verus!
