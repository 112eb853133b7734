use prover::message::{
    ChallengeRequest, ChallengeResponse, Message, NodeType, Ping, Pong, PuzzleResponse,
};
use prover::session::{Action, CloseReason, Event, HandshakeState, ProverEvent, Session};

fn fresh_session() -> Session {
    let (session, request) = Session::new(
        12,
        4140,
        vec![0xAA, 0xBB],
        vec![1, 2, 3, 4],
        vec![0xCC],
        77,
    );
    match request {
        Message::ChallengeRequest(cr) => {
            assert_eq!(cr.version, 12);
            assert_eq!(cr.listener_port, 4140);
            assert_eq!(cr.node_type, NodeType::Prover);
            assert_eq!(cr.address, vec![0xAA, 0xBB]);
            assert_eq!(cr.nonce, 77);
        }
        other => panic!("expected a challenge request, got {:?}", other),
    }
    assert!(!session.connected);
    assert_eq!(session.state, HandshakeState::AwaitingPeerChallenge);
    session
}

fn peer_challenge(version: u32, node_type: NodeType) -> Message {
    Message::ChallengeRequest(ChallengeRequest {
        version,
        listener_port: 4133,
        node_type,
        address: vec![0xEE],
        nonce: 999,
    })
}

#[test]
fn handshake_success_reaches_connected_after_one_round_trip() {
    let mut s = fresh_session();

    let a1 = s.on_event(Event::Inbound(peer_challenge(12, NodeType::Beacon)));
    assert_eq!(
        a1,
        vec![Action::RespondToChallenge { genesis: vec![1, 2, 3, 4], nonce: 999 }]
    );
    assert!(!s.connected);
    assert_eq!(s.state, HandshakeState::AwaitingPeerChallengeResponse);

    let a2 = s.on_event(Event::Inbound(Message::ChallengeResponse(ChallengeResponse {
        genesis_header: vec![1, 2, 3, 4],
        signature: vec![9, 9],
    })));
    assert_eq!(
        a2,
        vec![Action::Send(Message::Ping(Ping {
            version: 12,
            node_type: NodeType::Prover,
            block_locators: None,
        }))]
    );
    assert!(!s.connected);
    assert_eq!(s.state, HandshakeState::AwaitingFirstPong);

    let a3 = s.on_event(Event::Inbound(Message::Pong(Pong { is_fork: None })));
    assert_eq!(a3, vec![Action::Send(Message::PuzzleRequest)]);
    assert!(s.connected);
    assert_eq!(s.state, HandshakeState::Established);
}

#[test]
fn validator_peer_is_accepted_too() {
    let mut s = fresh_session();
    let a = s.on_event(Event::Inbound(peer_challenge(13, NodeType::Validator)));
    assert_eq!(
        a,
        vec![Action::RespondToChallenge { genesis: vec![1, 2, 3, 4], nonce: 999 }]
    );
}

#[test]
fn older_version_closes_without_challenge_response() {
    let mut s = fresh_session();
    let a = s.on_event(Event::Inbound(peer_challenge(11, NodeType::Beacon)));
    assert_eq!(a, vec![Action::Close(CloseReason::VersionMismatch)]);
    assert!(!s.connected);
}

#[test]
fn non_coordinator_role_closes_without_challenge_response() {
    let mut s = fresh_session();
    let a = s.on_event(Event::Inbound(peer_challenge(12, NodeType::Prover)));
    assert_eq!(a, vec![Action::Close(CloseReason::WrongPeerRole)]);
    let mut s2 = fresh_session();
    let a2 = s2.on_event(Event::Inbound(peer_challenge(12, NodeType::Client)));
    assert_eq!(a2, vec![Action::Close(CloseReason::WrongPeerRole)]);
}

#[test]
fn genesis_mismatch_closes_without_ping() {
    let mut s = fresh_session();
    let a = s.on_event(Event::Inbound(Message::ChallengeResponse(ChallengeResponse {
        genesis_header: vec![1, 2, 3, 5],
        signature: vec![],
    })));
    assert_eq!(a, vec![Action::Close(CloseReason::GenesisMismatch)]);
    assert!(!s.connected);
}

#[test]
fn first_pong_requests_work_exactly_once() {
    let mut s = fresh_session();
    let a = s.on_event(Event::Inbound(Message::Pong(Pong { is_fork: Some(false) })));
    assert_eq!(a, vec![Action::Send(Message::PuzzleRequest)]);
    assert!(s.connected);

    let again = s.on_event(Event::Inbound(Message::Pong(Pong { is_fork: None })));
    assert_eq!(again, Vec::new());
    assert!(s.connected);
}

#[test]
fn ping_is_answered_with_pong_then_fresh_ping() {
    let mut s = fresh_session();
    let a = s.on_event(Event::Inbound(Message::Ping(Ping {
        version: 12,
        node_type: NodeType::Beacon,
        block_locators: None,
    })));
    assert_eq!(
        a,
        vec![
            Action::Send(Message::Pong(Pong { is_fork: None })),
            Action::Send(Message::Ping(Ping {
                version: 12,
                node_type: NodeType::Prover,
                block_locators: None,
            })),
        ]
    );
}

#[test]
fn puzzle_response_requests_decode_then_target_comes_before_work() {
    let mut s = fresh_session();
    let a = s.on_event(Event::Inbound(Message::PuzzleResponse(PuzzleResponse {
        epoch_number: 42,
        epoch_challenge: vec![7, 7, 7],
        block_header: vec![8, 8],
    })));
    assert_eq!(a, vec![Action::RequestDecode(vec![8, 8])]);

    let b = s.on_event(Event::HeaderDecoded(123_456));
    assert_eq!(
        b,
        vec![
            Action::Deliver(ProverEvent::NewTarget(123_456)),
            Action::Deliver(ProverEvent::NewWork {
                epoch_number: 42,
                challenge: vec![7, 7, 7],
                reward_address: vec![0xCC],
            }),
        ]
    );
}

#[test]
fn failed_header_decode_closes_the_session() {
    let mut s = fresh_session();
    let _ = s.on_event(Event::Inbound(Message::PuzzleResponse(PuzzleResponse {
        epoch_number: 1,
        epoch_challenge: vec![],
        block_header: vec![0xFF],
    })));
    let a = s.on_event(Event::HeaderDecodeFailed);
    assert_eq!(a, vec![Action::Close(CloseReason::MalformedHeader)]);
}

#[test]
fn decode_outcomes_without_pending_work_are_ignored() {
    let mut s = fresh_session();
    assert_eq!(s.on_event(Event::HeaderDecoded(5)), Vec::new());
    assert_eq!(s.on_event(Event::HeaderDecodeFailed), Vec::new());
}

#[test]
fn peer_disconnect_closes_the_session() {
    let mut s = fresh_session();
    let a = s.on_event(Event::Inbound(Message::Disconnect(String::from(
        "your node type is not supported",
    ))));
    assert_eq!(a, vec![Action::Close(CloseReason::PeerDisconnected)]);
}

#[test]
fn end_of_stream_clears_connected_and_closes() {
    let mut s = fresh_session();
    let _ = s.on_event(Event::Inbound(Message::Pong(Pong { is_fork: None })));
    assert!(s.connected);
    let a = s.on_event(Event::StreamEnded);
    assert_eq!(a, vec![Action::Close(CloseReason::EndOfStream)]);
    assert!(!s.connected);
}

#[test]
fn transient_read_errors_are_tolerated() {
    let mut s = fresh_session();
    let _ = s.on_event(Event::Inbound(Message::Pong(Pong { is_fork: None })));
    let a = s.on_event(Event::InboundError);
    assert_eq!(a, Vec::new());
    assert!(s.connected);
}

#[test]
fn unhandled_message_kinds_are_ignored() {
    let mut s = fresh_session();
    assert_eq!(s.on_event(Event::Inbound(Message::PeerRequest)), Vec::new());
    assert_eq!(
        s.on_event(Event::Inbound(Message::UnconfirmedSolution(vec![1]))),
        Vec::new()
    );
    assert_eq!(s.on_event(Event::Inbound(Message::PuzzleRequest)), Vec::new());
    assert!(!s.connected);
}

#[test]
fn open_draws_a_nonce_and_builds_the_same_request() {
    let (session, request) = Session::open(12, 4140, vec![3], vec![4], vec![5]);
    assert!(!session.connected);
    assert_eq!(session.state, HandshakeState::AwaitingPeerChallenge);
    match request {
        Message::ChallengeRequest(cr) => {
            assert_eq!(cr.version, 12);
            assert_eq!(cr.listener_port, 4140);
            assert_eq!(cr.node_type, NodeType::Prover);
            assert_eq!(cr.address, vec![3]);
        }
        other => panic!("expected a challenge request, got {:?}", other),
    }
}
