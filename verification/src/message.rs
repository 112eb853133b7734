//! Wire-level message kinds exchanged with the coordinator node.
//!
//! Each message carries only the fields the session logic reads or fills.
//! Cryptographic payloads (addresses, signatures, challenge blobs, raw block
//! headers) are opaque byte blobs here: their byte-exact encoding and their
//! decoding are owned by the external protocol library, and the session logic
//! only carries them through or compares them for equality.

use vstd::prelude::*;

verus! {

/// The role a node declares in the handshake.
#[derive(Clone, Copy, Debug, PartialEq, Eq, Structural)]
pub enum NodeType {
    Beacon,
    Client,
    Prover,
    Validator,
}

impl NodeType {
    /// Whether this role is an authoritative coordinator, i.e. a node this
    /// worker accepts work assignments from.
    pub open spec fn is_coordinator_role(self) -> bool {
        self is Beacon || self is Validator
    }

    /// True exactly when the role is a coordinator (beacon or validator).
    pub fn is_coordinator(&self) -> (r: bool)
        ensures
            r == self.is_coordinator_role(),
    {
        match self {
            NodeType::Beacon => true,
            NodeType::Validator => true,
            _ => false,
        }
    }
}

/// Opening handshake message: who the sender is and a nonce to be signed.
#[derive(Clone, Debug, PartialEq)]
pub struct ChallengeRequest {
    pub version: u32,
    pub listener_port: u16,
    pub node_type: NodeType,
    pub address: Vec<u8>,
    pub nonce: u64,
}

pub struct ChallengeRequestV {
    pub version: u32,
    pub listener_port: u16,
    pub node_type: NodeType,
    pub address: Seq<u8>,
    pub nonce: u64,
}

impl View for ChallengeRequest {
    type V = ChallengeRequestV;

    open spec fn view(&self) -> ChallengeRequestV {
        ChallengeRequestV {
            version: self.version,
            listener_port: self.listener_port,
            node_type: self.node_type,
            address: self.address@,
            nonce: self.nonce,
        }
    }
}

/// Reply to a challenge: the sender's genesis reference and its signature
/// over the received nonce.
#[derive(Clone, Debug, PartialEq)]
pub struct ChallengeResponse {
    pub genesis_header: Vec<u8>,
    pub signature: Vec<u8>,
}

pub struct ChallengeResponseV {
    pub genesis_header: Seq<u8>,
    pub signature: Seq<u8>,
}

impl View for ChallengeResponse {
    type V = ChallengeResponseV;

    open spec fn view(&self) -> ChallengeResponseV {
        ChallengeResponseV { genesis_header: self.genesis_header@, signature: self.signature@ }
    }
}

/// Keep-alive probe.
#[derive(Clone, Debug, PartialEq)]
pub struct Ping {
    pub version: u32,
    pub node_type: NodeType,
    pub block_locators: Option<Vec<u8>>,
}

pub struct PingV {
    pub version: u32,
    pub node_type: NodeType,
    pub block_locators: Option<Seq<u8>>,
}

impl View for Ping {
    type V = PingV;

    open spec fn view(&self) -> PingV {
        PingV {
            version: self.version,
            node_type: self.node_type,
            block_locators: match self.block_locators {
                Option::Some(b) => Option::Some(b@),
                Option::None => Option::None,
            },
        }
    }
}

/// Keep-alive reply.
#[derive(Clone, Copy, Debug, PartialEq, Eq, Structural)]
pub struct Pong {
    pub is_fork: Option<bool>,
}

/// A work assignment: an epoch challenge plus the raw block header from
/// which the proof-difficulty target is decoded on demand.
#[derive(Clone, Debug, PartialEq)]
pub struct PuzzleResponse {
    pub epoch_number: u32,
    pub epoch_challenge: Vec<u8>,
    pub block_header: Vec<u8>,
}

pub struct PuzzleResponseV {
    pub epoch_number: u32,
    pub epoch_challenge: Seq<u8>,
    pub block_header: Seq<u8>,
}

impl View for PuzzleResponse {
    type V = PuzzleResponseV;

    open spec fn view(&self) -> PuzzleResponseV {
        PuzzleResponseV {
            epoch_number: self.epoch_number,
            epoch_challenge: self.epoch_challenge@,
            block_header: self.block_header@,
        }
    }
}

/// The closed set of message kinds the session logic dispatches on.
///
/// Kinds the worker recognizes but does not act on (peer-list traffic,
/// solution submissions echoed back) are listed so the dispatch has an
/// explicit catch-all, never a silent drop of an unknown variant.
#[derive(Clone, Debug, PartialEq)]
pub enum Message {
    ChallengeRequest(ChallengeRequest),
    ChallengeResponse(ChallengeResponse),
    Ping(Ping),
    Pong(Pong),
    PuzzleRequest,
    PuzzleResponse(PuzzleResponse),
    Disconnect(String),
    PeerRequest,
    UnconfirmedSolution(Vec<u8>),
}

pub enum MessageV {
    ChallengeRequest(ChallengeRequestV),
    ChallengeResponse(ChallengeResponseV),
    Ping(PingV),
    Pong(Pong),
    PuzzleRequest,
    PuzzleResponse(PuzzleResponseV),
    Disconnect(Seq<char>),
    PeerRequest,
    UnconfirmedSolution(Seq<u8>),
}

impl View for Message {
    type V = MessageV;

    open spec fn view(&self) -> MessageV {
        match self {
            Message::ChallengeRequest(m) => MessageV::ChallengeRequest(m@),
            Message::ChallengeResponse(m) => MessageV::ChallengeResponse(m@),
            Message::Ping(m) => MessageV::Ping(m@),
            Message::Pong(m) => MessageV::Pong(*m),
            Message::PuzzleRequest => MessageV::PuzzleRequest,
            Message::PuzzleResponse(m) => MessageV::PuzzleResponse(m@),
            Message::Disconnect(r) => MessageV::Disconnect(r@),
            Message::PeerRequest => MessageV::PeerRequest,
            Message::UnconfirmedSolution(s) => MessageV::UnconfirmedSolution(s@),
        }
    }
}

} // verus!
