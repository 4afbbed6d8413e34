//! The connection-fatal errors the engine can fail with.

use vstd::prelude::*;
use crate::frames::GoAway;

verus! {

/// Why the engine gave up on the connection. Every variant is terminal: the
/// transport loop must close the connection when it sees one.
#[derive(Clone, Debug, PartialEq, Eq)]
pub enum LoquiError {
    /// A keepalive ping was never answered before the next ping tick.
    PingTimeout,
    /// A frame arrived whose opcode is not valid at this point of the
    /// connection's life, such as a handshake frame after the handshake.
    InvalidOpcode { actual: u8, expected: Option<u8> },
    /// The peer asked this side to go away; the original frame is kept for
    /// diagnostics.
    ToldToGoAway { go_away: GoAway },
    /// The engine's owner asked for the connection to be closed.
    ConnectionCloseRequested,
}

} // verus!
