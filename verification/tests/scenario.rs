//! One whole run, driven by hand: two connect failures against a candidate
//! set of two peers, then a successful connection, a full handshake with a
//! matching genesis, and the eager work request on the first pong.

use prover::message::{ChallengeRequest, ChallengeResponse, Message, NodeType, Pong};
use prover::queue::OutboundQueue;
use prover::session::{Action, Event, HandshakeState, Session};
use prover::supervisor::{ConnectOutcome, Supervisor};
use prover::ticker::tick;
use prover::{OUTBOUND_CAPACITY, RETRY_COOLDOWN_SECS};

#[test]
fn two_failures_then_a_clean_handshake_and_one_eager_work_request() {
    let candidates = vec![String::from("192.0.2.10:4133"), String::from("192.0.2.11:4133")];
    let mut sup = Supervisor::new(candidates.clone());
    let mut queue = OutboundQueue::new(OUTBOUND_CAPACITY);
    let genesis = vec![0x01, 0x02, 0x03];

    // Two attempts time out; each address came from the candidate set and
    // each failure is followed by the same fixed cooldown.
    let mut failed_connects = 0;
    for _ in 0..2 {
        let addr = sup.next_attempt();
        assert!(candidates.contains(&addr));
        assert_eq!(sup.cooldown_after(ConnectOutcome::TimedOut), RETRY_COOLDOWN_SECS);
        failed_connects += 1;
    }
    assert_eq!(failed_connects, 2);

    // The third attempt connects: exactly N + 1 = 3 attempts in all.
    let addr = sup.next_attempt();
    assert!(candidates.contains(&addr));
    assert_eq!(sup.attempt_count(), 3);

    // While the handshake is not done, ticker firings enqueue nothing.
    let (mut session, request) = Session::new(
        12,
        4140,
        vec![0x0A],
        genesis.clone(),
        vec![0x0B],
        424_242,
    );
    assert!(matches!(request, Message::ChallengeRequest(_)));
    assert!(tick(session.connected, &mut queue).is_ok());
    assert_eq!(queue.len(), 0);

    // The peer's challenge arrives and is answered.
    let a = session.on_event(Event::Inbound(Message::ChallengeRequest(ChallengeRequest {
        version: 12,
        listener_port: 4133,
        node_type: NodeType::Beacon,
        address: vec![0x0C],
        nonce: 5,
    })));
    assert_eq!(a, vec![Action::RespondToChallenge { genesis: genesis.clone(), nonce: 5 }]);

    // Its challenge response matches our genesis; our first ping goes out.
    let a = session.on_event(Event::Inbound(Message::ChallengeResponse(ChallengeResponse {
        genesis_header: genesis.clone(),
        signature: vec![0xFE],
    })));
    assert_eq!(a.len(), 1);
    assert!(matches!(a[0], Action::Send(Message::Ping(_))));
    assert_eq!(session.state, HandshakeState::AwaitingFirstPong);
    assert!(!session.connected);

    // The first pong: connected flips, and exactly one puzzle request goes
    // out at once, before any ticker firing.
    let a = session.on_event(Event::Inbound(Message::Pong(Pong { is_fork: None })));
    assert_eq!(a, vec![Action::Send(Message::PuzzleRequest)]);
    assert!(session.connected);

    // From now on each ticker firing enqueues exactly one more request.
    assert!(tick(session.connected, &mut queue).is_ok());
    assert_eq!(queue.len(), 1);
    assert_eq!(queue.dequeue(), Some(Message::PuzzleRequest));
}
