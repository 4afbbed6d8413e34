//! The pluggable business-logic side of a connection.

use vstd::prelude::*;
use crate::frames::{ErrorFrame, LoquiFrame, Push, Request, Response};
use crate::id_sequence::IdSequence;

verus! {

/// A business-relevant frame handed to the [`Handler`] for interpretation.
#[derive(Clone, Debug, PartialEq, Eq)]
pub enum DelegatedFrame {
    Request(Request),
    Response(Response),
    Push(Push),
    Error(ErrorFrame),
}

/// The application's business logic, injected at engine construction.
///
/// The engine makes no assumption about what an implementation does: its own
/// guarantees hold whatever these methods return.
pub trait Handler: Sized {
    /// An application-defined event, opaque to the engine.
    type InternalEvent;

    /// A deferred unit of work whose result is not yet known. The engine
    /// never runs one itself: it hands it back to its caller, which runs it
    /// independently and reinjects the result as a `ResponseComplete` event.
    type Pending;

    /// The payload encode/decode capability lent to every call.
    type Encoder;

    /// Reacts to a delegated frame: either settles it with nothing to send,
    /// or returns a pending computation to be run independently.
    fn handle_frame(
        &mut self,
        frame: DelegatedFrame,
        encoder: &Self::Encoder,
    ) -> Option<Self::Pending>;

    /// Notified once for each keepalive ping the peer sends.
    fn handle_ping(&mut self);

    /// Reacts to an application-defined event. The sequence generator is
    /// lent mutably so the handler can originate its own correlated frames.
    fn handle_internal_event(
        &mut self,
        event: Self::InternalEvent,
        id_sequence: &mut IdSequence,
        encoder: &Self::Encoder,
    ) -> Option<LoquiFrame>;
}

} // verus!
