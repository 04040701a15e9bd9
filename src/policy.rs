//! The TLS policy that every secure attempt of a connector shares.
use vstd::prelude::*;

verus! {

/// The ALPN protocols offered, most preferred first: `h2`, then `http/1.1`,
/// as ASCII bytes.
pub open spec fn default_alpn() -> Seq<Seq<u8>> {
    seq![seq![104u8, 50u8], seq![104u8, 116u8, 116u8, 112u8, 47u8, 49u8, 46u8, 49u8]]
}

/// The ALPN protocol list of the default policy.
pub fn alpn_protocols() -> (r: Vec<Vec<u8>>)
    ensures
        r.deep_view() =~= default_alpn(),
{
    let h2: Vec<u8> = vec![104, 50];
    let http1: Vec<u8> = vec![104, 116, 116, 112, 47, 49, 46, 49];
    let r: Vec<Vec<u8>> = vec![h2, http1];
    assert(r.deep_view()[0] =~= default_alpn()[0]);
    assert(r.deep_view()[1] =~= default_alpn()[1]);
    r
}

/// The ALPN protocols that a policy offers, most preferred first (its
/// `alpn_protocols` field).
pub uninterp spec fn alpn_of(c: rustls::ClientConfig) -> Seq<Seq<u8>>;

/// Whether a policy checks certificate transparency against `ct_logs::LOGS`
/// (its `ct_logs` field).
pub uninterp spec fn ct_logs_attached(c: rustls::ClientConfig) -> bool;

/// The trusted roots of a policy (its `root_store` field).
pub uninterp spec fn roots_of(c: rustls::ClientConfig) -> rustls::RootCertStore;

/// Relies on `rustls::ClientConfig::new`: a client policy with rustls's
/// cipher suites and protocol versions, no ALPN protocols and no CT logs.
#[verifier::external_body]
fn empty_client_config() -> (r: rustls::ClientConfig)
    ensures
        alpn_of(r) == Seq::<Seq<u8>>::empty(),
        !ct_logs_attached(r),
{
    rustls::ClientConfig::new()
}

/// Relies on `rustls::ClientConfig::set_protocols`: replaces the ALPN list
/// and touches no other field.
#[verifier::external_body]
fn set_alpn_protocols(config: &mut rustls::ClientConfig, protocols: &Vec<Vec<u8>>)
    ensures
        alpn_of(*final(config)) == protocols.deep_view(),
        ct_logs_attached(*final(config)) == ct_logs_attached(*old(config)),
        roots_of(*final(config)) == roots_of(*old(config)),
{
    config.set_protocols(protocols)
}

/// Relies on the `root_store` field of `rustls::ClientConfig`: replaces the
/// trusted roots and nothing else.
#[verifier::external_body]
fn set_root_store(config: &mut rustls::ClientConfig, roots: rustls::RootCertStore)
    ensures
        roots_of(*final(config)) == roots,
        alpn_of(*final(config)) == alpn_of(*old(config)),
        ct_logs_attached(*final(config)) == ct_logs_attached(*old(config)),
{
    config.root_store = roots;
}

/// Relies on `ct_logs::LOGS` and the `ct_logs` field of
/// `rustls::ClientConfig`: certificate transparency is checked against
/// Google's list of known logs; no other field changes.
#[verifier::external_body]
fn attach_ct_logs(config: &mut rustls::ClientConfig)
    ensures
        ct_logs_attached(*final(config)),
        alpn_of(*final(config)) == alpn_of(*old(config)),
        roots_of(*final(config)) == roots_of(*old(config)),
{
    config.ct_logs = Some(&ct_logs::LOGS);
}

/// The default policy over the given trusted roots: ALPN as in
/// [`alpn_protocols`], and certificate transparency checked.
pub fn tls_config(roots: rustls::RootCertStore) -> (r: rustls::ClientConfig)
    ensures
        alpn_of(r) == default_alpn(),
        roots_of(r) == roots,
        ct_logs_attached(r),
{
    let mut config = empty_client_config();
    let protocols = alpn_protocols();
    set_alpn_protocols(&mut config, &protocols);
    set_root_store(&mut config, roots);
    attach_ct_logs(&mut config);
    config
}

} // verus!
