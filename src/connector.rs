//! The connector: a transport and the TLS policy shared by all its attempts.
use std::sync::Arc;
use vstd::prelude::*;

use crate::attempt::{start_spec, Action, Attempt, FailureKind, Stage};
use crate::peer::{is_ascii_lowercase_of, is_name_char};
use crate::policy::{alpn_of, ct_logs_attached, default_alpn, roots_of, tls_config};
use crate::target::{host_of, is_secure_scheme, peer_name_of, scheme_of, Target};

verus! {

/// A connector for the `https` scheme. Plain destinations go through the
/// transport `T` alone; secure ones are wrapped in TLS under one policy,
/// shared (never copied, never changed) by every attempt.
#[derive(Clone)]
pub struct HttpsConnector<T> {
    http: T,
    tls_config: Arc<rustls::ClientConfig>,
}

/// Whether a TCP transport refuses destinations whose scheme is not `http`.
pub uninterp spec fn enforces_http(h: hyper::client::HttpConnector) -> bool;

/// Relies on `hyper::client::HttpConnector::new`: a TCP transport with the
/// default resolver, which refuses destinations whose scheme is not `http`.
#[verifier::external_body]
fn http_connector_new() -> (r: hyper::client::HttpConnector)
    ensures
        enforces_http(r),
{
    hyper::client::HttpConnector::new()
}

/// Relies on `hyper::client::HttpConnector::enforce_http`: with `false` the
/// transport accepts destinations of any scheme, `https` included.
#[verifier::external_body]
fn enforce_http(h: &mut hyper::client::HttpConnector, is_enforced: bool)
    ensures
        enforces_http(*final(h)) == is_enforced,
{
    h.enforce_http(is_enforced)
}

impl HttpsConnector<hyper::client::HttpConnector> {
    /// A connector over hyper's TCP transport with the default policy over
    /// the given trusted roots (see [`tls_config`]).
    pub fn new(roots: rustls::RootCertStore) -> (r: Self)
        ensures
            !enforces_http(r.http()),
            alpn_of(*r.policy()) == default_alpn(),
            roots_of(*r.policy()) == roots,
            ct_logs_attached(*r.policy()),
    {
        let mut http = http_connector_new();
        enforce_http(&mut http, false);
        HttpsConnector { http, tls_config: Arc::new(tls_config(roots)) }
    }
}

/// Whether a transport can take a new connect request.
#[derive(Clone, Copy, Debug, PartialEq, Eq, Structural)]
pub enum Readiness {
    Ready,
    Pending,
    Failed,
}

impl<T> HttpsConnector<T> {
    /// The connector's readiness, given its transport's: the connector is
    /// ready exactly when the transport is, and looks at no destination and
    /// does no TLS work to say so.
    pub fn poll_ready(&self, transport: Readiness) -> (r: Readiness)
        ensures
            r == transport,
    {
        match transport {
            Readiness::Ready => Readiness::Ready,
            Readiness::Pending => Readiness::Pending,
            Readiness::Failed => Readiness::Failed,
        }
    }

    /// A connector over a transport and a policy of the caller's own.
    pub fn from_config(http: T, config: rustls::ClientConfig) -> (r: Self)
        ensures
            r.http() == http,
            r.policy() == config,
    {
        HttpsConnector { http, tls_config: Arc::new(config) }
    }

    /// A connector over a transport and a policy that others share too.
    pub fn from_shared_config(http: T, config: Arc<rustls::ClientConfig>) -> (r: Self)
        ensures
            r.http() == http,
            r.policy() == config,
    {
        HttpsConnector { http, tls_config: config }
    }

    pub closed spec fn http(&self) -> T {
        self.http
    }

    pub closed spec fn policy(&self) -> Arc<rustls::ClientConfig> {
        self.tls_config
    }

    /// The transport.
    pub fn transport(&self) -> (r: &T)
        ensures
            *r == self.http(),
    {
        &self.http
    }

    /// The transport, to make connect requests with.
    pub fn transport_mut(&mut self) -> (r: &mut T)
        ensures
            *r == old(self).http(),
    {
        &mut self.http
    }

    /// The shared policy.
    pub fn tls_config(&self) -> (r: &Arc<rustls::ClientConfig>)
        ensures
            *r == self.policy(),
    {
        &self.tls_config
    }

    /// Starts an attempt on a destination: decides from its scheme alone
    /// whether TLS is used and, if so, checks its peer name and captures the
    /// shared policy.
    pub fn start(&self, target: &Target) -> (r: (Attempt, Action))
        ensures
            r.0.wf(),
            (r.0@, r.1) == start_spec(target@.0, target@.1),
            r.0.policy() is Some ==> r.0.policy() == Some(self.policy()),
            r.0@.stage != Stage::Finished ==> (r.0.policy() is Some <==> r.0@.secure),
            r.0@.secure && r.0@.stage != Stage::Finished ==> is_ascii_lowercase_of(
                r.0.peer_text(),
                peer_name_of(target@.1),
            ),
            is_secure_scheme(target@.0) && peer_name_of(target@.1).len() == 0 ==> r.1
                == Action::Fail(FailureKind::InvalidPeerName),
            is_secure_scheme(target@.0) && (exists|i: int|
                0 <= i < peer_name_of(target@.1).len() && !is_name_char(
                    #[trigger] peer_name_of(target@.1)[i],
                )) ==> r.1 == Action::Fail(FailureKind::InvalidPeerName),
    {
        Attempt::start(target, &self.tls_config)
    }

    /// Starts an attempt on a URI, by its scheme and host.
    pub fn start_uri(&self, dst: &hyper::Uri) -> (r: (Attempt, Action))
        ensures
            r.0.wf(),
            (r.0@, r.1) == start_spec(scheme_of(*dst), host_of(*dst)),
            r.0.policy() is Some ==> r.0.policy() == Some(self.policy()),
    {
        let target = Target::from_uri(dst);
        self.start(&target)
    }
}

impl<T> From<(T, Arc<rustls::ClientConfig>)> for HttpsConnector<T> {
    fn from(args: (T, Arc<rustls::ClientConfig>)) -> (r: Self) {
        HttpsConnector { http: args.0, tls_config: args.1 }
    }
}

impl<T> vstd::std_specs::convert::FromSpecImpl<(T, Arc<rustls::ClientConfig>)> for HttpsConnector<T> {
    open spec fn obeys_from_spec() -> bool {
        true
    }

    closed spec fn from_spec(args: (T, Arc<rustls::ClientConfig>)) -> Self {
        HttpsConnector { http: args.0, tls_config: args.1 }
    }
}

impl<T> From<(T, rustls::ClientConfig)> for HttpsConnector<T> {
    fn from(args: (T, rustls::ClientConfig)) -> (r: Self) {
        HttpsConnector { http: args.0, tls_config: Arc::new(args.1) }
    }
}

impl<T> vstd::std_specs::convert::FromSpecImpl<(T, rustls::ClientConfig)> for HttpsConnector<T> {
    open spec fn obeys_from_spec() -> bool {
        true
    }

    closed spec fn from_spec(args: (T, rustls::ClientConfig)) -> Self {
        HttpsConnector { http: args.0, tls_config: Arc::new(args.1) }
    }
}

/// A connector made from a transport and a shared policy holds that
/// transport and that very handle.
pub proof fn from_shared_parts<T>(args: (T, Arc<rustls::ClientConfig>))
    ensures
        <HttpsConnector<T> as vstd::std_specs::convert::FromSpec<(T, Arc<rustls::ClientConfig>)>>::from_spec(args).http() == args.0,
        <HttpsConnector<T> as vstd::std_specs::convert::FromSpec<(T, Arc<rustls::ClientConfig>)>>::from_spec(args).policy() == args.1,
{
}

/// A connector made from a transport and a policy holds that transport and
/// that policy, unchanged.
pub proof fn from_owned_parts<T>(args: (T, rustls::ClientConfig))
    ensures
        <HttpsConnector<T> as vstd::std_specs::convert::FromSpec<(T, rustls::ClientConfig)>>::from_spec(args).http() == args.0,
        *<HttpsConnector<T> as vstd::std_specs::convert::FromSpec<(T, rustls::ClientConfig)>>::from_spec(args).policy() == args.1,
{
}

} // verus!
