//! The session state machine: handshake, steady-state message routing, and
//! the decisions taken on every connection event.
//!
//! The machine is pure: it consumes one [`Event`] at a time and returns the
//! [`Action`]s the surrounding I/O loop must perform — messages to write to
//! the wire, notifications to hand to the compute engine, a decode to run on
//! a raw block header, or an order to close the connection. The whole
//! transition relation is the spec function [`SessionV::step`]; the
//! executable [`Session::on_event`] is proved to follow it exactly.

use vstd::prelude::*;

use crate::bytes::bytes_eq;
use crate::bytes::clone_bytes;
use crate::message::ChallengeRequest;
use crate::message::ChallengeRequestV;
use crate::message::ChallengeResponseV;
use crate::message::Message;
use crate::message::MessageV;
use crate::message::NodeType;
use crate::message::Ping;
use crate::message::PingV;
use crate::message::Pong;

verus! {

/// Where the handshake stands, from the local point of view.
#[derive(Clone, Copy, Debug, PartialEq, Eq, Structural)]
pub enum HandshakeState {
    /// Our challenge request is out; the peer's has not arrived yet.
    AwaitingPeerChallenge,
    /// We answered the peer's challenge; its response to ours is due.
    AwaitingPeerChallengeResponse,
    /// Genesis matched and our first ping is out; no pong seen yet.
    AwaitingFirstPong,
    /// A keep-alive round trip completed; the session is usable for work.
    Established,
}

/// Why a session is being closed. Every close is fatal to the session only:
/// the supervisor waits out the cooldown and retries.
#[derive(Clone, Copy, Debug, PartialEq, Eq, Structural)]
pub enum CloseReason {
    /// The peer declared a protocol version older than ours.
    VersionMismatch,
    /// The peer is neither a beacon nor a validator.
    WrongPeerRole,
    /// The peer's genesis reference differs from ours.
    GenesisMismatch,
    /// A received block header failed to decode.
    MalformedHeader,
    /// The peer sent an explicit disconnect.
    PeerDisconnected,
    /// The byte stream ended cleanly.
    EndOfStream,
}

/// A notification for the external compute engine.
#[derive(Clone, Debug, PartialEq)]
pub enum ProverEvent {
    /// The latest proof-difficulty target.
    NewTarget(u64),
    /// A new assignment: epoch number, opaque challenge, and the address
    /// rewards should go to.
    NewWork { epoch_number: u32, challenge: Vec<u8>, reward_address: Vec<u8> },
}

pub enum ProverEventV {
    NewTarget(u64),
    NewWork { epoch_number: u32, challenge: Seq<u8>, reward_address: Seq<u8> },
}

impl View for ProverEvent {
    type V = ProverEventV;

    open spec fn view(&self) -> ProverEventV {
        match self {
            ProverEvent::NewTarget(t) => ProverEventV::NewTarget(*t),
            ProverEvent::NewWork { epoch_number, challenge, reward_address } => (
                ProverEventV::NewWork {
                    epoch_number: *epoch_number,
                    challenge: challenge@,
                    reward_address: reward_address@,
                }
            ),
        }
    }
}

/// One thing the I/O loop must do as a consequence of a transition, in the
/// order given.
#[derive(Clone, Debug, PartialEq)]
pub enum Action {
    /// Encode the message and write it to the connection.
    Send(Message),
    /// Sign the peer's nonce with the process identity and send a challenge
    /// response carrying this genesis reference and that signature. The
    /// signature itself is owned by the external crypto library, so it is
    /// produced outside the machine.
    RespondToChallenge { genesis: Vec<u8>, nonce: u64 },
    /// Decode the raw block header and feed the outcome back as
    /// [`Event::HeaderDecoded`] or [`Event::HeaderDecodeFailed`].
    RequestDecode(Vec<u8>),
    /// Hand a notification to the compute engine.
    Deliver(ProverEvent),
    /// Wait out the cooldown, then tear the connection down and return to
    /// the supervisor.
    Close(CloseReason),
}

pub enum ActionV {
    Send(MessageV),
    RespondToChallenge { genesis: Seq<u8>, nonce: u64 },
    RequestDecode(Seq<u8>),
    Deliver(ProverEventV),
    Close(CloseReason),
}

impl View for Action {
    type V = ActionV;

    open spec fn view(&self) -> ActionV {
        match self {
            Action::Send(m) => ActionV::Send(m@),
            Action::RespondToChallenge { genesis, nonce } => (
                ActionV::RespondToChallenge { genesis: genesis@, nonce: *nonce }
            ),
            Action::RequestDecode(h) => ActionV::RequestDecode(h@),
            Action::Deliver(e) => ActionV::Deliver(e@),
            Action::Close(r) => ActionV::Close(*r),
        }
    }
}

/// The view of a sequence of actions.
pub open spec fn acts(s: Seq<Action>) -> Seq<ActionV> {
    s.map_values(|a: Action| a@)
}

/// One occurrence on the live connection, as the I/O loop observes it.
#[derive(Clone, Debug, PartialEq)]
pub enum Event {
    /// A message arrived from the peer.
    Inbound(Message),
    /// A single read failed; the connection itself may still be fine.
    InboundError,
    /// The peer closed the stream cleanly.
    StreamEnded,
    /// The block header requested by [`Action::RequestDecode`] decoded to
    /// this proof-difficulty target.
    HeaderDecoded(u64),
    /// The requested decode failed.
    HeaderDecodeFailed,
}

pub enum EventV {
    Inbound(MessageV),
    InboundError,
    StreamEnded,
    HeaderDecoded(u64),
    HeaderDecodeFailed,
}

impl View for Event {
    type V = EventV;

    open spec fn view(&self) -> EventV {
        match self {
            Event::Inbound(m) => EventV::Inbound(m@),
            Event::InboundError => EventV::InboundError,
            Event::StreamEnded => EventV::StreamEnded,
            Event::HeaderDecoded(t) => EventV::HeaderDecoded(*t),
            Event::HeaderDecodeFailed => EventV::HeaderDecodeFailed,
        }
    }
}

/// The live state of one connection attempt.
pub struct Session {
    /// The protocol version this client speaks.
    pub local_version: u32,
    /// The port advertised as the local listener.
    pub listener_port: u16,
    /// The address derived from the ephemeral handshake identity.
    pub handshake_address: Vec<u8>,
    /// The local genesis reference, loaded once at startup.
    pub genesis: Vec<u8>,
    /// The address rewards for accepted solutions should go to.
    pub reward_address: Vec<u8>,
    /// Where the handshake stands.
    pub state: HandshakeState,
    /// True only after a keep-alive round trip has succeeded, false again
    /// once the connection is torn down.
    pub connected: bool,
    /// A work assignment whose block header is out for decoding.
    pub pending: Option<PendingWork>,
}

/// A work assignment received from the peer whose block header is out for
/// decoding; the deliverable notifications wait on the decode's outcome.
#[derive(Clone, Debug, PartialEq)]
pub struct PendingWork {
    pub epoch_number: u32,
    pub challenge: Vec<u8>,
}

pub struct PendingWorkV {
    pub epoch_number: u32,
    pub challenge: Seq<u8>,
}

pub struct SessionV {
    pub local_version: u32,
    pub listener_port: u16,
    pub handshake_address: Seq<u8>,
    pub genesis: Seq<u8>,
    pub reward_address: Seq<u8>,
    pub state: HandshakeState,
    pub connected: bool,
    pub pending: Option<PendingWorkV>,
}

impl View for Session {
    type V = SessionV;

    open spec fn view(&self) -> SessionV {
        SessionV {
            local_version: self.local_version,
            listener_port: self.listener_port,
            handshake_address: self.handshake_address@,
            genesis: self.genesis@,
            reward_address: self.reward_address@,
            state: self.state,
            connected: self.connected,
            pending: match self.pending {
                Option::Some(p) => Option::Some(
                    PendingWorkV { epoch_number: p.epoch_number, challenge: p.challenge@ },
                ),
                Option::None => Option::None,
            },
        }
    }
}

impl SessionV {
    /// The session invariant: the connected flag only ever holds in the
    /// established state, and flips back to false on teardown.
    pub open spec fn wf(self) -> bool {
        self.connected ==> self.state is Established
    }

    /// The state a freshly opened connection starts in, right after the
    /// initial challenge request has gone out.
    pub open spec fn initial(
        local_version: u32,
        listener_port: u16,
        handshake_address: Seq<u8>,
        genesis: Seq<u8>,
        reward_address: Seq<u8>,
    ) -> SessionV {
        SessionV {
            local_version,
            listener_port,
            handshake_address,
            genesis,
            reward_address,
            state: HandshakeState::AwaitingPeerChallenge,
            connected: false,
            pending: Option::None,
        }
    }

    /// Whether a peer's challenge request is acceptable: its version is not
    /// older than ours and its role is an authoritative coordinator.
    pub open spec fn accepts_peer(self, cr: ChallengeRequestV) -> bool {
        cr.version >= self.local_version && cr.node_type.is_coordinator_role()
    }

    /// The keep-alive ping this client sends.
    pub open spec fn local_ping(self) -> MessageV {
        MessageV::Ping(
            PingV {
                version: self.local_version,
                node_type: NodeType::Prover,
                block_locators: Option::None,
            },
        )
    }

    /// This session after teardown: the connected flag is cleared.
    pub open spec fn torn_down(self) -> SessionV {
        SessionV { connected: false, ..self }
    }

    /// Transition on the peer's challenge request: reject an old version or
    /// a non-coordinator role, else answer the challenge.
    pub open spec fn on_challenge_request(self, cr: ChallengeRequestV) -> (SessionV, Seq<
        ActionV,
    >) {
        if cr.version < self.local_version {
            (self.torn_down(), seq![ActionV::Close(CloseReason::VersionMismatch)])
        } else if !cr.node_type.is_coordinator_role() {
            (self.torn_down(), seq![ActionV::Close(CloseReason::WrongPeerRole)])
        } else {
            (
                SessionV {
                    state: if self.state is AwaitingPeerChallenge {
                        HandshakeState::AwaitingPeerChallengeResponse
                    } else {
                        self.state
                    },
                    ..self
                },
                seq![ActionV::RespondToChallenge { genesis: self.genesis, nonce: cr.nonce }],
            )
        }
    }

    /// Transition on the peer's challenge response: a matching genesis
    /// reference is answered with the first ping, a mismatch closes the
    /// session before any ping is sent.
    pub open spec fn on_challenge_response(self, m: ChallengeResponseV) -> (SessionV, Seq<
        ActionV,
    >) {
        if m.genesis_header == self.genesis {
            (
                SessionV {
                    state: if self.state is AwaitingPeerChallengeResponse {
                        HandshakeState::AwaitingFirstPong
                    } else {
                        self.state
                    },
                    ..self
                },
                seq![ActionV::Send(self.local_ping())],
            )
        } else {
            (self.torn_down(), seq![ActionV::Close(CloseReason::GenesisMismatch)])
        }
    }

    /// Transition on a pong: the first one since connecting flips the
    /// connected flag and requests work eagerly; later ones change nothing.
    pub open spec fn on_pong(self) -> (SessionV, Seq<ActionV>) {
        if !self.connected {
            (
                SessionV { connected: true, state: HandshakeState::Established, ..self },
                seq![ActionV::Send(MessageV::PuzzleRequest)],
            )
        } else {
            (self, Seq::<ActionV>::empty())
        }
    }

    /// Dispatch of one inbound message. Recognized kinds the worker does
    /// not act on fall to the final arm and are ignored.
    pub open spec fn on_message(self, m: MessageV) -> (SessionV, Seq<ActionV>) {
        match m {
            MessageV::ChallengeRequest(cr) => self.on_challenge_request(cr),
            MessageV::ChallengeResponse(r) => self.on_challenge_response(r),
            MessageV::Ping(_) => (
                self,
                seq![
                    ActionV::Send(MessageV::Pong(Pong { is_fork: Option::None })),
                    ActionV::Send(self.local_ping()),
                ],
            ),
            MessageV::Pong(_) => self.on_pong(),
            MessageV::PuzzleResponse(pr) => (
                SessionV {
                    pending: Option::Some(
                        PendingWorkV {
                            epoch_number: pr.epoch_number,
                            challenge: pr.epoch_challenge,
                        },
                    ),
                    ..self
                },
                seq![ActionV::RequestDecode(pr.block_header)],
            ),
            MessageV::Disconnect(_) => (
                self.torn_down(),
                seq![ActionV::Close(CloseReason::PeerDisconnected)],
            ),
            _ => (self, Seq::<ActionV>::empty()),
        }
    }

    /// The state a whole run of events leads to, one step at a time.
    pub open spec fn run(self, events: Seq<EventV>) -> SessionV
        decreases events.len(),
    {
        if events.len() == 0 {
            self
        } else {
            self.step(events[0]).0.run(events.drop_first())
        }
    }

    /// Every action a run of events produces, in the order the machine
    /// hands them out.
    pub open spec fn run_actions(self, events: Seq<EventV>) -> Seq<ActionV>
        decreases events.len(),
    {
        if events.len() == 0 {
            Seq::<ActionV>::empty()
        } else {
            self.step(events[0]).1 + self.step(events[0]).0.run_actions(events.drop_first())
        }
    }

    /// The whole transition relation of the session machine.
    pub open spec fn step(self, e: EventV) -> (SessionV, Seq<ActionV>) {
        match e {
            EventV::Inbound(m) => self.on_message(m),
            EventV::InboundError => (self, Seq::<ActionV>::empty()),
            EventV::StreamEnded => (
                self.torn_down(),
                seq![ActionV::Close(CloseReason::EndOfStream)],
            ),
            EventV::HeaderDecoded(target) => match self.pending {
                Option::Some(p) => (
                    SessionV { pending: Option::None, ..self },
                    seq![
                        ActionV::Deliver(ProverEventV::NewTarget(target)),
                        ActionV::Deliver(
                            ProverEventV::NewWork {
                                epoch_number: p.epoch_number,
                                challenge: p.challenge,
                                reward_address: self.reward_address,
                            },
                        ),
                    ],
                ),
                Option::None => (self, Seq::<ActionV>::empty()),
            },
            EventV::HeaderDecodeFailed => match self.pending {
                Option::Some(_) => (
                    SessionV { connected: false, pending: Option::None, ..self },
                    seq![ActionV::Close(CloseReason::MalformedHeader)],
                ),
                Option::None => (self, Seq::<ActionV>::empty()),
            },
        }
    }
}

impl Session {
    /// A session for a freshly opened connection, together with the
    /// challenge request that must be sent on it at once.
    pub fn new(
        local_version: u32,
        listener_port: u16,
        handshake_address: Vec<u8>,
        genesis: Vec<u8>,
        reward_address: Vec<u8>,
        nonce: u64,
    ) -> (r: (Session, Message))
        ensures
            r.0@ == SessionV::initial(
                local_version,
                listener_port,
                handshake_address@,
                genesis@,
                reward_address@,
            ),
            r.1@ == (MessageV::ChallengeRequest(
                ChallengeRequestV {
                    version: local_version,
                    listener_port,
                    node_type: NodeType::Prover,
                    address: handshake_address@,
                    nonce,
                },
            )),
    {
        let request = Message::ChallengeRequest(
            ChallengeRequest {
                version: local_version,
                listener_port,
                node_type: NodeType::Prover,
                address: clone_bytes(&handshake_address),
                nonce,
            },
        );
        let session = Session {
            local_version,
            listener_port,
            handshake_address,
            genesis,
            reward_address,
            state: HandshakeState::AwaitingPeerChallenge,
            connected: false,
            pending: Option::None,
        };
        (session, request)
    }

    /// Like [`Session::new`], with the nonce drawn fresh from the system's
    /// entropy source.
    pub fn open(
        local_version: u32,
        listener_port: u16,
        handshake_address: Vec<u8>,
        genesis: Vec<u8>,
        reward_address: Vec<u8>,
    ) -> (r: (Session, Message))
        ensures
            r.0@ == SessionV::initial(
                local_version,
                listener_port,
                handshake_address@,
                genesis@,
                reward_address@,
            ),
            (r.1@ matches MessageV::ChallengeRequest(cr) && cr.version == local_version
                && cr.listener_port == listener_port && cr.node_type is Prover && cr.address
                == handshake_address@),
    {
        let nonce = crate::entropy::random_nonce();
        Session::new(
            local_version,
            listener_port,
            handshake_address,
            genesis,
            reward_address,
            nonce,
        )
    }

    /// Feed one event through the machine; the returned actions are to be
    /// performed in order. The transition taken is exactly
    /// [`SessionV::step`] on the views.
    pub fn on_event(&mut self, event: Event) -> (actions: Vec<Action>)
        ensures
            final(self)@ == old(self)@.step(event@).0,
            acts(actions@) == old(self)@.step(event@).1,
    {
        let ghost pre = self@;
        let ghost ev = event@;
        let mut actions: Vec<Action> = Vec::new();
        match event {
            Event::Inbound(m) => match m {
                Message::ChallengeRequest(cr) => {
                    if cr.version < self.local_version {
                        self.connected = false;
                        actions.push(Action::Close(CloseReason::VersionMismatch));
                    } else if !cr.node_type.is_coordinator() {
                        self.connected = false;
                        actions.push(Action::Close(CloseReason::WrongPeerRole));
                    } else {
                        if self.state == HandshakeState::AwaitingPeerChallenge {
                            self.state = HandshakeState::AwaitingPeerChallengeResponse;
                        }
                        actions.push(
                            Action::RespondToChallenge {
                                genesis: clone_bytes(&self.genesis),
                                nonce: cr.nonce,
                            },
                        );
                    }
                },
                Message::ChallengeResponse(m) => {
                    if bytes_eq(&m.genesis_header, &self.genesis) {
                        if self.state == HandshakeState::AwaitingPeerChallengeResponse {
                            self.state = HandshakeState::AwaitingFirstPong;
                        }
                        actions.push(
                            Action::Send(
                                Message::Ping(
                                    Ping {
                                        version: self.local_version,
                                        node_type: NodeType::Prover,
                                        block_locators: Option::None,
                                    },
                                ),
                            ),
                        );
                    } else {
                        self.connected = false;
                        actions.push(Action::Close(CloseReason::GenesisMismatch));
                    }
                },
                Message::Ping(_) => {
                    actions.push(Action::Send(Message::Pong(Pong { is_fork: Option::None })));
                    actions.push(
                        Action::Send(
                            Message::Ping(
                                Ping {
                                    version: self.local_version,
                                    node_type: NodeType::Prover,
                                    block_locators: Option::None,
                                },
                            ),
                        ),
                    );
                },
                Message::Pong(_) => {
                    if !self.connected {
                        self.connected = true;
                        self.state = HandshakeState::Established;
                        actions.push(Action::Send(Message::PuzzleRequest));
                    }
                },
                Message::PuzzleResponse(pr) => {
                    self.pending = Option::Some(
                        PendingWork {
                            epoch_number: pr.epoch_number,
                            challenge: pr.epoch_challenge,
                        },
                    );
                    actions.push(Action::RequestDecode(pr.block_header));
                },
                Message::Disconnect(_) => {
                    self.connected = false;
                    actions.push(Action::Close(CloseReason::PeerDisconnected));
                },
                _ => {},
            },
            Event::InboundError => {},
            Event::StreamEnded => {
                self.connected = false;
                actions.push(Action::Close(CloseReason::EndOfStream));
            },
            Event::HeaderDecoded(target) => {
                match &self.pending {
                    Option::Some(p) => {
                        let epoch_number = p.epoch_number;
                        let challenge = clone_bytes(&p.challenge);
                        let reward_address = clone_bytes(&self.reward_address);
                        self.pending = Option::None;
                        actions.push(Action::Deliver(ProverEvent::NewTarget(target)));
                        actions.push(
                            Action::Deliver(
                                ProverEvent::NewWork { epoch_number, challenge, reward_address },
                            ),
                        );
                    },
                    Option::None => {},
                }
            },
            Event::HeaderDecodeFailed => {
                match &self.pending {
                    Option::Some(_) => {
                        self.connected = false;
                        self.pending = Option::None;
                        actions.push(Action::Close(CloseReason::MalformedHeader));
                    },
                    Option::None => {},
                }
            },
        }
        proof {
            assert(self@ =~= pre.step(ev).0);
            assert(acts(actions@) =~= pre.step(ev).1);
        }
        actions
    }
}

} // verus!
