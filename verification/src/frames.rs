//! The wire frames a connection exchanges, and their opcodes.

use vstd::prelude::*;

verus! {

pub const OPCODE_HELLO: u8 = 1;

pub const OPCODE_HELLO_ACK: u8 = 2;

pub const OPCODE_PING: u8 = 3;

pub const OPCODE_PONG: u8 = 4;

pub const OPCODE_REQUEST: u8 = 5;

pub const OPCODE_RESPONSE: u8 = 6;

pub const OPCODE_PUSH: u8 = 7;

pub const OPCODE_GO_AWAY: u8 = 8;

pub const OPCODE_ERROR: u8 = 9;

/// Handshake greeting; valid only before the engine takes over.
#[derive(Clone, Debug, PartialEq, Eq)]
pub struct Hello {
    pub flags: u8,
    pub payload: Vec<u8>,
}

/// Handshake acknowledgement; valid only before the engine takes over.
#[derive(Clone, Debug, PartialEq, Eq)]
pub struct HelloAck {
    pub flags: u8,
    pub payload: Vec<u8>,
}

/// Keepalive probe; the receiver must echo `sequence_id` and `flags` in a `Pong`.
#[derive(Clone, Debug, PartialEq, Eq)]
pub struct Ping {
    pub flags: u8,
    pub sequence_id: u32,
}

/// Keepalive answer, echoing the `Ping` it replies to.
#[derive(Clone, Debug, PartialEq, Eq)]
pub struct Pong {
    pub flags: u8,
    pub sequence_id: u32,
}

/// Inbound business message that expects a correlated `Response`.
#[derive(Clone, Debug, PartialEq, Eq)]
pub struct Request {
    pub flags: u8,
    pub sequence_id: u32,
    pub payload: Vec<u8>,
}

/// Result of a `Request`, correlated by `sequence_id`.
#[derive(Clone, Debug, PartialEq, Eq)]
pub struct Response {
    pub flags: u8,
    pub sequence_id: u32,
    pub payload: Vec<u8>,
}

/// Business message that expects no response.
#[derive(Clone, Debug, PartialEq, Eq)]
pub struct Push {
    pub flags: u8,
    pub payload: Vec<u8>,
}

/// Protocol-level or application-level error report.
#[derive(Clone, Debug, PartialEq, Eq)]
pub struct ErrorFrame {
    pub flags: u8,
    pub sequence_id: u32,
    pub code: u16,
    pub payload: Vec<u8>,
}

/// Peer-initiated termination signal.
#[derive(Clone, Debug, PartialEq, Eq)]
pub struct GoAway {
    pub flags: u8,
    pub payload: Vec<u8>,
}

/// One discrete protocol message unit exchanged over the connection.
#[derive(Clone, Debug, PartialEq, Eq)]
pub enum LoquiFrame {
    Hello(Hello),
    HelloAck(HelloAck),
    Ping(Ping),
    Pong(Pong),
    Request(Request),
    Response(Response),
    Push(Push),
    GoAway(GoAway),
    Error(ErrorFrame),
}

impl LoquiFrame {
    /// The wire opcode of this frame's kind.
    pub open spec fn spec_opcode(&self) -> u8 {
        match self {
            LoquiFrame::Hello(_) => OPCODE_HELLO,
            LoquiFrame::HelloAck(_) => OPCODE_HELLO_ACK,
            LoquiFrame::Ping(_) => OPCODE_PING,
            LoquiFrame::Pong(_) => OPCODE_PONG,
            LoquiFrame::Request(_) => OPCODE_REQUEST,
            LoquiFrame::Response(_) => OPCODE_RESPONSE,
            LoquiFrame::Push(_) => OPCODE_PUSH,
            LoquiFrame::GoAway(_) => OPCODE_GO_AWAY,
            LoquiFrame::Error(_) => OPCODE_ERROR,
        }
    }

    pub fn opcode(&self) -> (op: u8)
        ensures
            op == self.spec_opcode(),
    {
        match self {
            LoquiFrame::Hello(_) => OPCODE_HELLO,
            LoquiFrame::HelloAck(_) => OPCODE_HELLO_ACK,
            LoquiFrame::Ping(_) => OPCODE_PING,
            LoquiFrame::Pong(_) => OPCODE_PONG,
            LoquiFrame::Request(_) => OPCODE_REQUEST,
            LoquiFrame::Response(_) => OPCODE_RESPONSE,
            LoquiFrame::Push(_) => OPCODE_PUSH,
            LoquiFrame::GoAway(_) => OPCODE_GO_AWAY,
            LoquiFrame::Error(_) => OPCODE_ERROR,
        }
    }

    /// Whether this frame is handed to the `Handler` rather than answered by
    /// the engine itself.
    pub open spec fn is_delegated(&self) -> bool {
        match self {
            LoquiFrame::Request(_) => true,
            LoquiFrame::Response(_) => true,
            LoquiFrame::Push(_) => true,
            LoquiFrame::Error(_) => true,
            _ => false,
        }
    }
}

} // verus!
