use std::sync::Arc;

use hyper_rustls::attempt::{Action, Attempt, Event, FailureKind, Stage};
use hyper_rustls::connector::{HttpsConnector, Readiness};
use hyper_rustls::peer::parse_peer_name;
use hyper_rustls::policy::alpn_protocols;
use hyper_rustls::target::Target;

fn target(uri: &str) -> Target {
    let uri: hyper::Uri = uri.parse().unwrap();
    Target::from_uri(&uri)
}

fn connector() -> HttpsConnector<()> {
    HttpsConnector::from_config((), rustls::ClientConfig::new())
}

#[test]
fn target_reads_scheme_and_host() {
    let t = target("https://example.test/path?q=1");
    assert_eq!(t.scheme.as_deref(), Some("https"));
    assert_eq!(t.host.as_deref(), Some("example.test"));
    assert!(t.is_secure());
    assert_eq!(t.peer_name(), "example.test");
}

#[test]
fn scheme_match_is_exact() {
    assert!(!target("http://example.test/").is_secure());
    let upper = Target { scheme: Some("HTTPS".to_string()), host: Some("example.test".to_string()) };
    assert!(!upper.is_secure());
    let none = Target { scheme: None, host: Some("example.test".to_string()) };
    assert!(!none.is_secure());
}

#[test]
fn missing_host_gives_empty_peer_name() {
    let t = Target { scheme: Some("https".to_string()), host: None };
    assert_eq!(t.peer_name(), "");
}

#[test]
fn peer_name_check() {
    assert!(parse_peer_name(&"example.test".to_string()).is_some());
    assert!(parse_peer_name(&"exämple.test".to_string()).is_none());
    assert!(parse_peer_name(&"".to_string()).is_none());
    assert!(parse_peer_name(&"-bad.test".to_string()).is_none());
}

#[test]
fn default_alpn_list() {
    assert_eq!(alpn_protocols(), vec![b"h2".to_vec(), b"http/1.1".to_vec()]);
}

#[test]
fn plain_destination_returns_plain_stream() {
    let c = connector();
    let (mut a, first) = c.start(&target("http://example.test/"));
    assert_eq!(first, Action::Connect);
    assert!(!a.is_secure());
    assert_eq!(a.step(Event::Connected), Action::ReturnPlain);
    assert_eq!(a.stage(), Stage::Finished);
}

#[test]
fn plain_destination_ignores_handshake_events() {
    let c = connector();
    let (mut a, _) = c.start(&target("http://example.test/"));
    assert_eq!(a.step(Event::HandshakeSucceeded), Action::Ignore);
    assert_eq!(a.step(Event::HandshakeFailed), Action::Ignore);
    assert_eq!(a.stage(), Stage::Connecting);
    assert_eq!(a.step(Event::Connected), Action::ReturnPlain);
}

#[test]
fn secure_destination_returns_tls_stream() {
    let c = connector();
    let (mut a, first) = c.start(&target("https://example.test/"));
    assert_eq!(first, Action::Connect);
    assert!(a.is_secure());
    assert_eq!(a.step(Event::Connected), Action::Handshake);
    assert_eq!(a.stage(), Stage::Handshaking);
    let (name, policy) = a.handshake_parts();
    let name: &str = name.as_ref().into();
    assert_eq!(name, "example.test");
    assert!(Arc::ptr_eq(policy, c.tls_config()));
    assert_eq!(a.step(Event::HandshakeSucceeded), Action::ReturnSecured);
    assert_eq!(a.stage(), Stage::Finished);
}

#[test]
fn secure_destination_transport_failure() {
    let c = connector();
    let (mut a, _) = c.start(&target("https://example.test/"));
    assert_eq!(a.step(Event::ConnectFailed), Action::Fail(FailureKind::Transport));
    assert_eq!(a.step(Event::Connected), Action::Ignore);
    assert_eq!(a.stage(), Stage::Finished);
}

#[test]
fn non_ascii_host_fails_before_connecting() {
    let c = connector();
    let t = Target { scheme: Some("https".to_string()), host: Some("exämple.test".to_string()) };
    let (mut a, first) = c.start(&t);
    assert_eq!(first, Action::Fail(FailureKind::InvalidPeerName));
    assert_eq!(a.stage(), Stage::Finished);
    assert_eq!(a.step(Event::Connected), Action::Ignore);
}

#[test]
fn missing_host_fails_closed() {
    let c = connector();
    let t = Target { scheme: Some("https".to_string()), host: None };
    let (_, first) = c.start(&t);
    assert_eq!(first, Action::Fail(FailureKind::InvalidPeerName));
}

#[test]
fn handshake_rejection() {
    let c = connector();
    let (mut a, _) = c.start(&target("https://example.test/"));
    assert_eq!(a.step(Event::Connected), Action::Handshake);
    assert_eq!(a.step(Event::HandshakeFailed), Action::Fail(FailureKind::Handshake));
    assert_eq!(a.step(Event::HandshakeSucceeded), Action::Ignore);
}

#[test]
fn many_attempts_share_one_policy() {
    let c = connector();
    let mut attempts: Vec<Attempt> = Vec::new();
    for _ in 0..8 {
        let (mut a, _) = c.start(&target("https://example.test/"));
        assert_eq!(a.step(Event::Connected), Action::Handshake);
        attempts.push(a);
    }
    for a in &attempts {
        assert!(Arc::ptr_eq(a.handshake_parts().1, c.tls_config()));
    }
    // Each attempt holds one more handle to the same policy.
    assert_eq!(Arc::strong_count(c.tls_config()), 1 + attempts.len());
}

#[test]
fn policy_released_when_attempt_finishes() {
    let c = connector();
    let (mut a, _) = c.start(&target("https://example.test/"));
    assert_eq!(Arc::strong_count(c.tls_config()), 2);
    a.step(Event::Connected);
    a.step(Event::HandshakeFailed);
    assert_eq!(Arc::strong_count(c.tls_config()), 1);
}

#[test]
fn plain_attempt_does_not_touch_policy() {
    let c = connector();
    let (_a, _) = c.start(&target("http://example.test/"));
    assert_eq!(Arc::strong_count(c.tls_config()), 1);
}

#[test]
fn readiness_passes_through() {
    let c = connector();
    assert_eq!(c.poll_ready(Readiness::Pending), Readiness::Pending);
    assert_eq!(c.poll_ready(Readiness::Ready), Readiness::Ready);
    assert_eq!(c.poll_ready(Readiness::Failed), Readiness::Failed);
}

#[test]
fn shared_config_constructor_keeps_handle() {
    let cfg = Arc::new(rustls::ClientConfig::new());
    let c = HttpsConnector::from_shared_config(7u8, cfg.clone());
    assert!(Arc::ptr_eq(c.tls_config(), &cfg));
    assert_eq!(*c.transport(), 7u8);
    let d: HttpsConnector<u8> = HttpsConnector::from((8u8, cfg.clone()));
    assert!(Arc::ptr_eq(d.tls_config(), &cfg));
}

#[test]
fn default_connector_has_default_alpn() {
    let c = HttpsConnector::new(rustls::RootCertStore::empty());
    assert_eq!(c.tls_config().alpn_protocols, vec![b"h2".to_vec(), b"http/1.1".to_vec()]);
    assert!(c.tls_config().ct_logs.is_some());
}

#[test]
fn peer_name_is_lowercased_by_the_check() {
    let c = connector();
    let (mut a, _) = c.start(&target("https://Example.TEST/"));
    assert_eq!(a.step(Event::Connected), Action::Handshake);
    let name: &str = a.handshake_parts().0.as_ref().into();
    assert_eq!(name, "example.test");
}

#[test]
fn attempt_yields_one_result() {
    let c = connector();
    let events = [
        Event::Connected,
        Event::HandshakeSucceeded,
        Event::HandshakeSucceeded,
        Event::HandshakeFailed,
        Event::Connected,
        Event::ConnectFailed,
    ];
    let (mut a, first) = c.start(&target("https://example.test/"));
    let mut actions = vec![first];
    for e in events {
        actions.push(a.step(e));
    }
    let finals = actions
        .iter()
        .filter(|a| matches!(a, Action::ReturnPlain | Action::ReturnSecured | Action::Fail(_)))
        .count();
    assert_eq!(finals, 1);
    let handshakes = actions.iter().filter(|a| **a == Action::Handshake).count();
    assert_eq!(handshakes, 1);
}

#[test]
fn overlong_peer_name_is_refused() {
    let label = "a".repeat(60);
    let long = format!("{0}.{0}.{0}.{0}.{0}.test", label);
    assert!(long.len() > 253);
    assert!(parse_peer_name(&long).is_none());
}

#[test]
fn default_connector_keeps_given_roots() {
    let c = HttpsConnector::new(rustls::RootCertStore::empty());
    assert!(c.tls_config().root_store.is_empty());
}

#[test]
fn from_owned_config_wraps_fresh_handle() {
    let d: HttpsConnector<u8> = HttpsConnector::from((9u8, rustls::ClientConfig::new()));
    assert_eq!(*d.transport(), 9u8);
    assert_eq!(Arc::strong_count(d.tls_config()), 1);
    assert!(d.tls_config().alpn_protocols.is_empty());
}

#[test]
fn from_shared_config_keeps_count() {
    let cfg = Arc::new(rustls::ClientConfig::new());
    let d: HttpsConnector<u8> = HttpsConnector::from((1u8, cfg.clone()));
    assert_eq!(Arc::strong_count(&cfg), 2);
    assert!(Arc::ptr_eq(d.tls_config(), &cfg));
}

#[test]
fn uri_without_host_reads_none() {
    let t = target("/relative/path");
    assert!(t.scheme.is_none());
    assert!(t.host.is_none());
    let c = connector();
    let uri: hyper::Uri = "https://example.test/".parse().unwrap();
    let (mut a, first) = c.start_uri(&uri);
    assert_eq!(first, Action::Connect);
    assert_eq!(a.step(Event::Connected), Action::Handshake);
}
