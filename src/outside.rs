//! Outside types that the library carries through its logic without reading
//! inside them.
use vstd::prelude::*;

verus! {

/// `hyper::Uri`, the destination handed to a connector.
#[verifier::external_type_specification]
#[verifier::external_body]
pub struct ExUri(hyper::Uri);

/// `rustls::ClientConfig`, the TLS policy shared by all secure attempts.
#[verifier::external_type_specification]
#[verifier::external_body]
pub struct ExClientConfig(rustls::ClientConfig);

/// `rustls::RootCertStore`, the trusted roots of a TLS policy.
#[verifier::external_type_specification]
#[verifier::external_body]
pub struct ExRootCertStore(rustls::RootCertStore);

/// `webpki::DNSName`, a peer name that passed webpki's syntax check.
#[verifier::external_type_specification]
#[verifier::external_body]
pub struct ExDnsName(webpki::DNSName);

/// `hyper::client::connect::dns::GaiResolver`, the default name resolver.
#[verifier::external_type_specification]
#[verifier::external_body]
pub struct ExGaiResolver(hyper::client::connect::dns::GaiResolver);

/// `hyper::client::HttpConnector`, the plain TCP transport.
#[verifier::external_type_specification]
#[verifier::external_body]
#[verifier::reject_recursive_types(R)]
pub struct ExHttpConnector<R>(hyper::client::HttpConnector<R>);

} // verus!
