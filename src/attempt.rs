//! The decisions of one connect attempt, as a state machine.
//!
//! An attempt is started from a destination; it asks its driver to perform
//! actions (connect the transport, run a TLS handshake) and is told how each
//! ended by an event. The driver owns the streams; the attempt owns every
//! decision: whether TLS is used, with which peer name and policy, and what
//! the caller finally receives.
use std::sync::Arc;
use vstd::prelude::*;

use crate::peer::{dns_name_text, dns_name_valid, is_ascii_lowercase_of, is_name_char, parse_peer_name};
use crate::target::{is_secure_scheme, peer_name_of, Target};

verus! {

/// Why an attempt failed.
#[derive(Clone, Copy, Debug, PartialEq, Eq, Structural)]
pub enum FailureKind {
    /// The transport could not be connected.
    Transport,
    /// A secure destination has no host, or one that is not a valid DNS name.
    InvalidPeerName,
    /// The TLS handshake failed (protocol, certificate, or the peer).
    Handshake,
}

/// Where an attempt stands.
#[derive(Clone, Copy, Debug, PartialEq, Eq, Structural)]
pub enum Stage {
    /// Waiting for the transport to connect.
    Connecting,
    /// Waiting for the TLS handshake over the connected transport.
    Handshaking,
    /// The caller has its stream or its error.
    Finished,
}

/// How the last action ended.
#[derive(Clone, Copy, Debug, PartialEq, Eq, Structural)]
pub enum Event {
    Connected,
    ConnectFailed,
    HandshakeSucceeded,
    HandshakeFailed,
}

/// What the driver is to do next.
#[derive(Clone, Copy, Debug, PartialEq, Eq, Structural)]
pub enum Action {
    /// Start connecting the transport to the destination.
    Connect,
    /// Run a TLS handshake over the connected transport, with the attempt's
    /// peer name and policy.
    Handshake,
    /// Hand the connected transport to the caller as a plain stream.
    ReturnPlain,
    /// Hand the TLS stream to the caller.
    ReturnSecured,
    /// Release whatever is connected and report the failure.
    Fail(FailureKind),
    /// The event does not fit the stage: nothing to do.
    Ignore,
}

/// The model of an attempt: whether it uses TLS, and its stage.
pub struct AttemptState {
    pub secure: bool,
    pub stage: Stage,
}

/// The first state and action of an attempt on a destination with the given
/// scheme and host.
pub open spec fn start_spec(scheme: Option<Seq<char>>, host: Option<Seq<char>>) -> (AttemptState, Action) {
    if !is_secure_scheme(scheme) {
        (AttemptState { secure: false, stage: Stage::Connecting }, Action::Connect)
    } else if dns_name_valid(peer_name_of(host)) {
        (AttemptState { secure: true, stage: Stage::Connecting }, Action::Connect)
    } else {
        (AttemptState { secure: true, stage: Stage::Finished }, Action::Fail(FailureKind::InvalidPeerName))
    }
}

/// One transition: the next state and the action that an event leads to.
pub open spec fn next_spec(s: AttemptState, e: Event) -> (AttemptState, Action) {
    match (s.stage, e) {
        (Stage::Connecting, Event::Connected) => if s.secure {
            (AttemptState { stage: Stage::Handshaking, ..s }, Action::Handshake)
        } else {
            (AttemptState { stage: Stage::Finished, ..s }, Action::ReturnPlain)
        },
        (Stage::Connecting, Event::ConnectFailed) => (
            AttemptState { stage: Stage::Finished, ..s },
            Action::Fail(FailureKind::Transport),
        ),
        (Stage::Handshaking, Event::HandshakeSucceeded) => (
            AttemptState { stage: Stage::Finished, ..s },
            Action::ReturnSecured,
        ),
        (Stage::Handshaking, Event::HandshakeFailed) => (
            AttemptState { stage: Stage::Finished, ..s },
            Action::Fail(FailureKind::Handshake),
        ),
        _ => (s, Action::Ignore),
    }
}

/// The actions that a run of events leads to from a state.
pub open spec fn run_spec(s: AttemptState, events: Seq<Event>) -> Seq<Action>
    decreases events.len(),
{
    if events.len() == 0 {
        Seq::empty()
    } else {
        let (s2, a) = next_spec(s, events[0]);
        seq![a] + run_spec(s2, events.drop_first())
    }
}

/// The number of handshakes asked for in a sequence of actions.
pub open spec fn handshake_count(actions: Seq<Action>) -> nat
    decreases actions.len(),
{
    if actions.len() == 0 {
        0
    } else {
        (if actions[0] == Action::Handshake { 1nat } else { 0nat }) + handshake_count(
            actions.drop_first(),
        )
    }
}

/// Actions that end an attempt: the caller gets its stream or its error.
pub open spec fn is_final_action(a: Action) -> bool {
    a == Action::ReturnPlain || a == Action::ReturnSecured || a is Fail
}

/// The number of final actions in a sequence of actions.
pub open spec fn final_count(actions: Seq<Action>) -> nat
    decreases actions.len(),
{
    if actions.len() == 0 {
        0
    } else {
        (if is_final_action(actions[0]) { 1nat } else { 0nat }) + final_count(actions.drop_first())
    }
}

/// Actions that belong to TLS: a plain attempt never asks for one.
pub open spec fn is_tls_action(a: Action) -> bool {
    a == Action::Handshake || a == Action::ReturnSecured || a == Action::Fail(
        FailureKind::Handshake,
    ) || a == Action::Fail(FailureKind::InvalidPeerName)
}

/// One connect attempt.
pub struct Attempt {
    secure: bool,
    stage: Stage,
    peer: Option<webpki::DNSName>,
    tls_config: Option<Arc<rustls::ClientConfig>>,
}

impl View for Attempt {
    type V = AttemptState;

    closed spec fn view(&self) -> AttemptState {
        AttemptState { secure: self.secure, stage: self.stage }
    }
}

impl Attempt {
    /// A secure attempt that is not finished holds its peer name and policy;
    /// a plain one holds neither.
    pub closed spec fn wf(&self) -> bool {
        &&& self.secure && self.stage != Stage::Finished ==> self.peer.is_some()
            && self.tls_config.is_some()
        &&& !self.secure ==> self.peer.is_none() && self.tls_config.is_none()
            && self.stage != Stage::Handshaking
    }

    /// The TLS policy that the attempt captured, if it is secure and did not
    /// fail on its peer name.
    pub closed spec fn policy(&self) -> Option<Arc<rustls::ClientConfig>> {
        self.tls_config
    }

    /// The checked peer name that a secure attempt holds.
    pub closed spec fn peer_text(&self) -> Seq<char> {
        dns_name_text(self.peer->Some_0)
    }

    /// Starts an attempt on a destination. Only a secure destination reads
    /// `tls_config`; its peer name is checked before anything is connected.
    pub fn start(target: &Target, tls_config: &Arc<rustls::ClientConfig>) -> (r: (Attempt, Action))
        ensures
            r.0.wf(),
            (r.0@, r.1) == start_spec(target@.0, target@.1),
            r.0@.stage != Stage::Finished ==> (r.0.policy() is Some <==> r.0@.secure),
            r.0.policy() is Some ==> r.0.policy() == Some(*tls_config),
            r.0@.secure && r.0@.stage != Stage::Finished ==> is_ascii_lowercase_of(
                r.0.peer_text(),
                peer_name_of(target@.1),
            ),
            is_secure_scheme(target@.0) && peer_name_of(target@.1).len() == 0 ==> r.1
                == Action::Fail(FailureKind::InvalidPeerName),
            is_secure_scheme(target@.0) && (exists|i: int|
                0 <= i < peer_name_of(target@.1).len() && !is_name_char(
                    #[trigger] peer_name_of(target@.1)[i],
                )) ==> r.1 == Action::Fail(FailureKind::InvalidPeerName),
    {
        if !target.is_secure() {
            let a = Attempt { secure: false, stage: Stage::Connecting, peer: None, tls_config: None };
            (a, Action::Connect)
        } else {
            let name = target.peer_name();
            match parse_peer_name(&name) {
                Some(peer) => {
                    let a = Attempt {
                        secure: true,
                        stage: Stage::Connecting,
                        peer: Some(peer),
                        tls_config: Some(tls_config.clone()),
                    };
                    (a, Action::Connect)
                },
                None => {
                    let a = Attempt { secure: true, stage: Stage::Finished, peer: None, tls_config: None };
                    (a, Action::Fail(FailureKind::InvalidPeerName))
                },
            }
        }
    }

    /// Whether the attempt uses TLS.
    pub fn is_secure(&self) -> (r: bool)
        ensures
            r == self@.secure,
    {
        self.secure
    }

    /// The attempt's stage.
    pub fn stage(&self) -> (r: Stage)
        ensures
            r == self@.stage,
    {
        self.stage
    }

    /// Takes the event that ended the last action and returns the next action.
    pub fn step(&mut self, e: Event) -> (r: Action)
        requires
            old(self).wf(),
        ensures
            final(self).wf(),
            (final(self)@, r) == next_spec(old(self)@, e),
            final(self)@.stage != Stage::Finished ==> final(self).policy() == old(self).policy(),
            final(self)@.stage != Stage::Finished ==> final(self).peer_text() == old(self).peer_text(),
    {
        match (self.stage, e) {
            (Stage::Connecting, Event::Connected) => {
                if self.secure {
                    self.stage = Stage::Handshaking;
                    Action::Handshake
                } else {
                    self.stage = Stage::Finished;
                    Action::ReturnPlain
                }
            },
            (Stage::Connecting, Event::ConnectFailed) => {
                self.finish();
                Action::Fail(FailureKind::Transport)
            },
            (Stage::Handshaking, Event::HandshakeSucceeded) => {
                self.finish();
                Action::ReturnSecured
            },
            (Stage::Handshaking, Event::HandshakeFailed) => {
                self.finish();
                Action::Fail(FailureKind::Handshake)
            },
            _ => Action::Ignore,
        }
    }

    /// Ends the attempt and lets go of its peer name and policy.
    fn finish(&mut self)
        ensures
            final(self).secure == old(self).secure,
            final(self).stage == Stage::Finished,
            final(self).peer.is_none(),
            final(self).tls_config.is_none(),
    {
        self.stage = Stage::Finished;
        self.peer = None;
        self.tls_config = None;
    }

    /// The peer name and policy of the handshake that the attempt asked for.
    pub fn handshake_parts(&self) -> (r: (&webpki::DNSName, &Arc<rustls::ClientConfig>))
        requires
            self.wf(),
            self@.secure,
            self@.stage == Stage::Handshaking,
        ensures
            dns_name_text(*r.0) == self.peer_text(),
            self.policy() == Some(*r.1),
    {
        (self.peer.as_ref().unwrap(), self.tls_config.as_ref().unwrap())
    }
}

} // verus!
