//! The session machine's guarantees, stated and proved over the transition
//! relation [`SessionV::step`].

use vstd::prelude::*;

use crate::message::ChallengeRequestV;
use crate::message::ChallengeResponseV;
use crate::message::MessageV;
use crate::message::Pong;
use crate::session::ActionV;
use crate::session::CloseReason;
use crate::session::EventV;
use crate::session::ProverEventV;
use crate::session::SessionV;

verus! {

/// Handshake correctness: a fresh session facing a peer whose version is
/// not older than ours, whose role is a coordinator, and whose genesis
/// reference matches, answers the challenge, sends exactly one locally
/// initiated ping, and reaches `connected` exactly on the pong that answers
/// it — one keep-alive round trip, with one work request out eagerly.
pub proof fn lemma_handshake_success(
    s0: SessionV,
    cr: ChallengeRequestV,
    m: ChallengeResponseV,
    pong: Pong,
)
    requires
        s0.state is AwaitingPeerChallenge,
        !s0.connected,
        s0.accepts_peer(cr),
        m.genesis_header == s0.genesis,
    ensures
        ({
            let (s1, a1) = s0.step(EventV::Inbound(MessageV::ChallengeRequest(cr)));
            let (s2, a2) = s1.step(EventV::Inbound(MessageV::ChallengeResponse(m)));
            let (s3, a3) = s2.step(EventV::Inbound(MessageV::Pong(pong)));
            &&& a1 == seq![ActionV::RespondToChallenge { genesis: s0.genesis, nonce: cr.nonce }]
            &&& !s1.connected
            &&& a2 == seq![ActionV::Send(s0.local_ping())]
            &&& !s2.connected
            &&& s2.state is AwaitingFirstPong
            &&& s3.connected
            &&& s3.state is Established
            &&& a3 == seq![ActionV::Send(MessageV::PuzzleRequest)]
        }),
{
}

/// Version rejection: a peer challenge declaring a version older than ours
/// closes the session at once, and no challenge response goes out.
pub proof fn lemma_rejects_old_version(s: SessionV, cr: ChallengeRequestV)
    requires
        cr.version < s.local_version,
    ensures
        ({
            let (s1, a) = s.step(EventV::Inbound(MessageV::ChallengeRequest(cr)));
            &&& a == seq![ActionV::Close(CloseReason::VersionMismatch)]
            &&& forall|i: int| 0 <= i < a.len() ==> !(#[trigger] a[i] is RespondToChallenge)
            &&& !s1.connected
        }),
{
}

/// Role rejection: a peer that is neither a beacon nor a validator closes
/// the session at once, and no challenge response goes out.
pub proof fn lemma_rejects_wrong_role(s: SessionV, cr: ChallengeRequestV)
    requires
        cr.version >= s.local_version,
        !cr.node_type.is_coordinator_role(),
    ensures
        ({
            let (s1, a) = s.step(EventV::Inbound(MessageV::ChallengeRequest(cr)));
            &&& a == seq![ActionV::Close(CloseReason::WrongPeerRole)]
            &&& forall|i: int| 0 <= i < a.len() ==> !(#[trigger] a[i] is RespondToChallenge)
            &&& !s1.connected
        }),
{
}

/// Genesis rejection: a challenge response carrying a different genesis
/// reference closes the session, and no ping is ever sent for it.
pub proof fn lemma_rejects_genesis_mismatch(s: SessionV, m: ChallengeResponseV)
    requires
        m.genesis_header != s.genesis,
    ensures
        ({
            let (s1, a) = s.step(EventV::Inbound(MessageV::ChallengeResponse(m)));
            &&& a == seq![ActionV::Close(CloseReason::GenesisMismatch)]
            &&& forall|i: int|
                0 <= i < a.len() ==> (#[trigger] a[i] matches ActionV::Send(msg) ==> !(msg
                    is Ping))
            &&& !s1.connected
        }),
{
}

/// First-connect eagerness: the first pong after connecting flips the
/// connected flag and emits exactly one puzzle request, timer or no timer.
pub proof fn lemma_first_pong_eager(s: SessionV, pong: Pong)
    requires
        !s.connected,
    ensures
        ({
            let (s1, a) = s.step(EventV::Inbound(MessageV::Pong(pong)));
            &&& s1.connected
            &&& s1.state is Established
            &&& a == seq![ActionV::Send(MessageV::PuzzleRequest)]
        }),
{
}

/// Once connected, a further pong requests nothing and changes nothing:
/// the eager request of the first pong happens exactly once per connection.
pub proof fn lemma_later_pong_quiet(s: SessionV, pong: Pong)
    requires
        s.connected,
    ensures
        ({
            let (s1, a) = s.step(EventV::Inbound(MessageV::Pong(pong)));
            &&& s1 == s
            &&& a == Seq::<ActionV>::empty()
        }),
{
}

/// Target-before-work ordering: when a pending work assignment's header
/// decodes, exactly two notifications go to the compute engine, and the
/// new target stands strictly before the new work of the same response.
pub proof fn lemma_target_before_work(s: SessionV, target: u64)
    requires
        s.pending is Some,
    ensures
        ({
            let (s1, a) = s.step(EventV::HeaderDecoded(target));
            let p = s.pending->Some_0;
            &&& a.len() == 2
            &&& a[0] == ActionV::Deliver(ProverEventV::NewTarget(target))
            &&& a[1] == ActionV::Deliver(
                ProverEventV::NewWork {
                    epoch_number: p.epoch_number,
                    challenge: p.challenge,
                    reward_address: s.reward_address,
                },
            )
            &&& s1.pending is None
        }),
{
}

/// Target-before-work, over whole runs: wherever a run's actions deliver
/// new work to the compute engine, the immediately preceding action
/// delivers a new target — the engine never sees work without the target
/// that gates its solutions standing first.
pub proof fn lemma_run_work_preceded_by_target(s: SessionV, events: Seq<EventV>, i: int)
    requires
        0 <= i < s.run_actions(events).len(),
        s.run_actions(events)[i] matches ActionV::Deliver(d) && d is NewWork,
    ensures
        i > 0,
        s.run_actions(events)[i - 1] matches ActionV::Deliver(d) && d is NewTarget,
    decreases events.len(),
{
    let first = s.step(events[0]).1;
    let rest = s.step(events[0]).0.run_actions(events.drop_first());
    assert(s.run_actions(events) == first + rest);
    if i >= first.len() {
        lemma_run_work_preceded_by_target(s.step(events[0]).0, events.drop_first(), i
            - first.len());
        assert(s.run_actions(events)[i - 1] == rest[i - first.len() - 1]);
    }
}

/// The connected flag's whole life: it rises from false to true only on a
/// pong — the completion of a keep-alive round trip — and falls from true
/// to false only when the session is being closed.
pub proof fn lemma_connected_transitions(s: SessionV, e: EventV)
    ensures
        ({
            let (s1, a) = s.step(e);
            &&& (!s.connected && s1.connected) ==> (e matches EventV::Inbound(m) && m is Pong
                && s1.state is Established)
            &&& (s.connected && !s1.connected) ==> a.len() == 1 && a[0] is Close
        }),
{
}

/// Every transition preserves the session invariant: the connected flag
/// holds only in the established state.
pub proof fn lemma_step_preserves_wf(s: SessionV, e: EventV)
    requires
        s.wf(),
    ensures
        s.step(e).0.wf(),
{
}

/// The session invariant holds along any run of events, however long.
pub proof fn lemma_run_preserves_wf(s: SessionV, events: Seq<EventV>)
    requires
        s.wf(),
    ensures
        s.run(events).wf(),
    decreases events.len(),
{
    if events.len() > 0 {
        lemma_step_preserves_wf(s, events[0]);
        lemma_run_preserves_wf(s.step(events[0]).0, events.drop_first());
    }
}

/// No run without a pong in it ever reaches `connected`: the keep-alive
/// round trip is the only way a session becomes usable for work, so while
/// the handshake is incomplete the ticker's gate stays shut.
pub proof fn lemma_no_connection_without_pong(s: SessionV, events: Seq<EventV>)
    requires
        !s.connected,
        forall|i: int|
            0 <= i < events.len() ==> !(#[trigger] events[i] matches EventV::Inbound(m) && m
                is Pong),
    ensures
        !s.run(events).connected,
    decreases events.len(),
{
    if events.len() > 0 {
        let s1 = s.step(events[0]).0;
        assert(!(events[0] matches EventV::Inbound(m) && m is Pong));
        lemma_connected_transitions(s, events[0]);
        let rest = events.drop_first();
        assert forall|i: int|
            0 <= i < rest.len() implies !(#[trigger] rest[i] matches EventV::Inbound(m) && m
            is Pong) by {
            assert(rest[i] == events[i + 1]);
        }
        lemma_no_connection_without_pong(s1, rest);
    }
}

} // verus!
