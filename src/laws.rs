//! What holds of every run of an attempt, whatever events its driver reports.
use vstd::prelude::*;

use crate::attempt::{
    final_count, handshake_count, is_final_action, is_tls_action, next_spec, run_spec, start_spec, Action, AttemptState,
    Event, FailureKind, Stage,
};
use crate::peer::dns_name_valid;
use crate::target::{is_secure_scheme, peer_name_of};

verus! {

proof fn lemma_run_unfold(s: AttemptState, events: Seq<Event>)
    requires
        events.len() > 0,
    ensures
        run_spec(s, events)[0] == next_spec(s, events[0]).1,
        run_spec(s, events).drop_first() == run_spec(next_spec(s, events[0]).0, events.drop_first()),
        final_count(run_spec(s, events)) == (if is_final_action(next_spec(s, events[0]).1) {
            1nat
        } else {
            0nat
        }) + final_count(run_spec(next_spec(s, events[0]).0, events.drop_first())),
        handshake_count(run_spec(s, events)) == (if next_spec(s, events[0]).1 == Action::Handshake {
            1nat
        } else {
            0nat
        }) + handshake_count(run_spec(next_spec(s, events[0]).0, events.drop_first())),
{
    let (s2, a) = next_spec(s, events[0]);
    let rest = run_spec(s2, events.drop_first());
    assert((seq![a] + rest).drop_first() =~= rest);
}

proof fn lemma_run_len(s: AttemptState, events: Seq<Event>)
    ensures
        run_spec(s, events).len() == events.len(),
    decreases events.len(),
{
    if events.len() > 0 {
        lemma_run_len(next_spec(s, events[0]).0, events.drop_first());
    }
}

proof fn lemma_plain_run(s: AttemptState, events: Seq<Event>)
    requires
        !s.secure,
        s.stage != Stage::Handshaking,
    ensures
        forall|i: int| 0 <= i < run_spec(s, events).len() ==> !is_tls_action(#[trigger] run_spec(s, events)[i]),
    decreases events.len(),
{
    if events.len() > 0 {
        let s2 = next_spec(s, events[0]).0;
        lemma_run_unfold(s, events);
        lemma_plain_run(s2, events.drop_first());
        let r = run_spec(s, events);
        assert forall|i: int| 0 <= i < r.len() implies !is_tls_action(#[trigger] r[i]) by {
            if i > 0 {
                assert(r[i] == r.drop_first()[i - 1]);
            }
        }
    }
}

proof fn lemma_finished_run(s: AttemptState, events: Seq<Event>)
    requires
        s.stage == Stage::Finished,
    ensures
        forall|i: int| 0 <= i < run_spec(s, events).len() ==> #[trigger] run_spec(s, events)[i] == Action::Ignore,
        handshake_count(run_spec(s, events)) == 0,
    decreases events.len(),
{
    if events.len() > 0 {
        lemma_run_unfold(s, events);
        lemma_finished_run(s, events.drop_first());
        let r = run_spec(s, events);
        assert forall|i: int| 0 <= i < r.len() implies #[trigger] r[i] == Action::Ignore by {
            if i > 0 {
                assert(r[i] == r.drop_first()[i - 1]);
            }
        }
    }
}

proof fn lemma_final_bound(s: AttemptState, events: Seq<Event>)
    ensures
        final_count(run_spec(s, events)) <= (if s.stage == Stage::Finished {
            0nat
        } else {
            1nat
        }),
    decreases events.len(),
{
    if events.len() > 0 {
        lemma_run_unfold(s, events);
        lemma_final_bound(next_spec(s, events[0]).0, events.drop_first());
    }
}

/// Every attempt ends at most once: whatever its driver reports, at most one
/// stream or error is handed to the caller, counting the start.
pub proof fn attempt_ends_once(scheme: Option<Seq<char>>, host: Option<Seq<char>>, events: Seq<Event>)
    ensures
        (if is_final_action(start_spec(scheme, host).1) {
            1nat
        } else {
            0nat
        }) + final_count(run_spec(start_spec(scheme, host).0, events)) <= 1,
{
    lemma_final_bound(start_spec(scheme, host).0, events);
}

proof fn lemma_handshake_bound(s: AttemptState, events: Seq<Event>)
    ensures
        handshake_count(run_spec(s, events)) <= (if s.secure && s.stage == Stage::Connecting {
            1nat
        } else {
            0nat
        }),
    decreases events.len(),
{
    if events.len() > 0 {
        lemma_run_unfold(s, events);
        lemma_handshake_bound(next_spec(s, events[0]).0, events.drop_first());
    }
}

/// A destination whose scheme is not exactly `https` is connected plainly:
/// the attempt starts by connecting, never asks for a handshake or hands out
/// a TLS stream, whatever its driver reports, and a connected transport is
/// returned as a plain stream.
pub proof fn plain_destination_never_uses_tls(
    scheme: Option<Seq<char>>,
    host: Option<Seq<char>>,
    events: Seq<Event>,
)
    requires
        !is_secure_scheme(scheme),
    ensures
        start_spec(scheme, host).1 == Action::Connect,
        forall|i: int|
            0 <= i < events.len() ==> !is_tls_action(#[trigger] run_spec(start_spec(scheme, host).0, events)[i]),
        handshake_count(run_spec(start_spec(scheme, host).0, events)) == 0,
        events.len() > 0 && events[0] == Event::Connected ==> run_spec(
            start_spec(scheme, host).0,
            events,
        )[0] == Action::ReturnPlain,
{
    let s = start_spec(scheme, host).0;
    lemma_run_len(s, events);
    lemma_plain_run(s, events);
    lemma_handshake_bound(s, events);
    if events.len() > 0 {
        lemma_run_unfold(s, events);
    }
}

/// A destination whose scheme is exactly `https` gets at most one handshake
/// per attempt, and never a plain stream; once its transport is connected,
/// exactly one handshake is asked for.
pub proof fn secure_destination_handshakes_once(
    scheme: Option<Seq<char>>,
    host: Option<Seq<char>>,
    events: Seq<Event>,
)
    requires
        is_secure_scheme(scheme),
    ensures
        handshake_count(run_spec(start_spec(scheme, host).0, events)) <= 1,
        forall|i: int|
            0 <= i < events.len() ==> #[trigger] run_spec(start_spec(scheme, host).0, events)[i]
                != Action::ReturnPlain,
        dns_name_valid(peer_name_of(host)) && events.len() > 0 && events[0] == Event::Connected
            ==> handshake_count(run_spec(start_spec(scheme, host).0, events)) == 1,
        events.len() > 0 && events[0] == Event::ConnectFailed ==> handshake_count(
            run_spec(start_spec(scheme, host).0, events),
        ) == 0,
{
    let s = start_spec(scheme, host).0;
    lemma_handshake_bound(s, events);
    lemma_run_len(s, events);
    lemma_secure_never_plain(s, events);
    if events.len() > 0 {
        lemma_run_unfold(s, events);
        let s2 = next_spec(s, events[0]).0;
        lemma_handshake_bound(s2, events.drop_first());
    }
}

proof fn lemma_secure_never_plain(s: AttemptState, events: Seq<Event>)
    requires
        s.secure,
    ensures
        forall|i: int| 0 <= i < run_spec(s, events).len() ==> #[trigger] run_spec(s, events)[i] != Action::ReturnPlain,
    decreases events.len(),
{
    if events.len() > 0 {
        lemma_run_unfold(s, events);
        lemma_secure_never_plain(next_spec(s, events[0]).0, events.drop_first());
        let r = run_spec(s, events);
        assert forall|i: int| 0 <= i < r.len() implies #[trigger] r[i] != Action::ReturnPlain by {
            if i > 0 {
                assert(r[i] == r.drop_first()[i - 1]);
            }
        }
    }
}

/// A secure destination whose peer name is not a valid DNS name fails at
/// once with a name error: nothing is connected, and no later event leads to
/// a handshake or any other action.
pub proof fn invalid_peer_name_fails_first(
    scheme: Option<Seq<char>>,
    host: Option<Seq<char>>,
    events: Seq<Event>,
)
    requires
        is_secure_scheme(scheme),
        !dns_name_valid(peer_name_of(host)),
    ensures
        start_spec(scheme, host).1 == Action::Fail(FailureKind::InvalidPeerName),
        start_spec(scheme, host).0.stage == Stage::Finished,
        forall|i: int|
            0 <= i < events.len() ==> #[trigger] run_spec(start_spec(scheme, host).0, events)[i]
                == Action::Ignore,
        handshake_count(run_spec(start_spec(scheme, host).0, events)) == 0,
{
    let s = start_spec(scheme, host).0;
    lemma_run_len(s, events);
    lemma_finished_run(s, events);
}

} // verus!
