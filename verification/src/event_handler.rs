//! Main handler of connection [`Event`]s.

use vstd::prelude::*;
use crate::error::LoquiError;
use crate::frames::{ErrorFrame, LoquiFrame, Ping, Pong, Response};
use crate::handler::{DelegatedFrame, Handler};
use crate::id_sequence::{wrapping_next, IdSequence};
use crate::render::{render_error_payload, rendered_bytes};

verus! {

/// The numeric wire code of an application failure this engine reports in an
/// `Error` frame it synthesizes itself.
pub const INTERNAL_SERVER_ERROR_CODE: u16 = 7;

/// One engine invocation's worth of input: a timer tick, a frame off the
/// wire, an application event, a completed delegated computation, or the
/// owner's request to shut down.
pub enum Event<I> {
    /// A local keepalive timer fired.
    Ping,
    /// A frame arrived from the peer.
    SocketReceive(LoquiFrame),
    /// An application-defined event, opaque to the engine.
    InternalEvent(I),
    /// A previously delegated computation finished, with either the response
    /// to send or an error message and the correlation id it belongs to.
    ResponseComplete(Result<Response, (String, u32)>),
    /// The engine's owner requests termination.
    Close,
}

/// What one event produced: at most one outgoing frame, and at most one
/// pending computation the caller must run independently. When the pending
/// computation finishes, its result comes back as a
/// [`Event::ResponseComplete`] event.
pub struct Outcome<P> {
    pub frame: Option<LoquiFrame>,
    pub pending: Option<P>,
}

/// Main handler of connection `Event`s: owns the keepalive state, the
/// sequence-id generator, the encoder and the business-logic handler, and
/// decides what frame (if any) answers each event.
pub struct EventHandler<H: Handler> {
    handler: H,
    pong_received: bool,
    id_sequence: IdSequence,
    encoder: H::Encoder,
}

impl<H: Handler> EventHandler<H> {
    /// Whether no keepalive ping is outstanding: the engine may issue a new
    /// one. When false, a ping was sent and no pong has answered it yet.
    pub closed spec fn is_idle(&self) -> bool {
        self.pong_received
    }

    /// The last sequence id handed out on this connection.
    pub closed spec fn sequence_value(&self) -> u32 {
        self.id_sequence.spec_value()
    }

    pub fn new(handler: H, encoder: H::Encoder) -> (engine: Self)
        ensures
            engine.is_idle(),
            engine.sequence_value() == 0,
    {
        Self { handler, pong_received: true, id_sequence: IdSequence::default(), encoder }
    }

    /// High level event handler entry point, called by the transport loop
    /// once per event. Exactly one outgoing frame, or none, or a terminal
    /// error results from each call.
    pub fn handle_event(&mut self, event: Event<H::InternalEvent>) -> (r: Result<
        Outcome<H::Pending>,
        LoquiError,
    >)
        ensures
            // A ping tick while idle emits a fresh keepalive ping and starts
            // awaiting its pong.
            (event matches Event::Ping && old(self).is_idle()) ==> ({
                &&& r matches Ok(out)
                &&& out.frame == Some(
                    LoquiFrame::Ping(
                        (Ping { flags: 0, sequence_id: wrapping_next(old(self).sequence_value()) }),
                    ),
                )
                &&& out.pending is None
                &&& !final(self).is_idle()
                &&& final(self).sequence_value() == wrapping_next(old(self).sequence_value())
            }),
            // A ping tick while a pong is still owed is a keepalive failure.
            (event matches Event::Ping && !old(self).is_idle()) ==> ({
                &&& r matches Err(e)
                &&& e == LoquiError::PingTimeout
                &&& *final(self) == *old(self)
            }),
            // Handshake frames are a protocol violation once the engine runs.
            event matches Event::SocketReceive(frame) ==> ((frame matches LoquiFrame::Hello(_)
                || frame matches LoquiFrame::HelloAck(_)) ==> ({
                &&& r matches Err(e)
                &&& e == (LoquiError::InvalidOpcode { actual: frame.spec_opcode(), expected: None })
                &&& *final(self) == *old(self)
            })),
            // An inbound ping is answered at once by a pong echoing its
            // flags and sequence id; the keepalive state is untouched.
            event matches Event::SocketReceive(frame) ==> (frame matches LoquiFrame::Ping(p) ==> ({
                &&& r matches Ok(out)
                &&& out.frame == Some(
                    LoquiFrame::Pong((Pong { flags: p.flags, sequence_id: p.sequence_id })),
                )
                &&& out.pending is None
                &&& final(self).is_idle() == old(self).is_idle()
                &&& final(self).sequence_value() == old(self).sequence_value()
            })),
            // Any inbound pong clears the awaiting state, whatever its
            // sequence id.
            event matches Event::SocketReceive(frame) ==> (frame matches LoquiFrame::Pong(_) ==> ({
                &&& r matches Ok(out)
                &&& out.frame is None
                &&& out.pending is None
                &&& final(self).is_idle()
                &&& final(self).sequence_value() == old(self).sequence_value()
            })),
            // Business frames are delegated to the handler; the engine sends
            // nothing itself and its own state is untouched.
            event matches Event::SocketReceive(frame) ==> (frame.is_delegated() ==> ({
                &&& r matches Ok(out)
                &&& out.frame is None
                &&& final(self).is_idle() == old(self).is_idle()
                &&& final(self).sequence_value() == old(self).sequence_value()
            })),
            // A goaway fails the connection, keeping the frame.
            event matches Event::SocketReceive(frame) ==> (frame matches LoquiFrame::GoAway(g)
                ==> ({
                &&& r matches Err(e)
                &&& e == (LoquiError::ToldToGoAway { go_away: g })
                &&& *final(self) == *old(self)
            })),
            // An application event is settled by the handler; whatever frame
            // it returns is passed through, and the keepalive state is
            // untouched.
            event matches Event::InternalEvent(_) ==> ({
                &&& r matches Ok(out)
                &&& out.pending is None
                &&& final(self).is_idle() == old(self).is_idle()
            }),
            // A completed computation's response goes out unmodified.
            event matches Event::ResponseComplete(result) ==> (result matches Ok(response) ==> ({
                &&& r matches Ok(out)
                &&& out.frame == Some(LoquiFrame::Response(response))
                &&& out.pending is None
                &&& *final(self) == *old(self)
            })),
            // A failed computation becomes a wire error on its correlation
            // id; the connection stays open.
            event matches Event::ResponseComplete(result) ==> (result matches Err(err) ==> ({
                &&& r matches Ok(out)
                &&& out.frame matches Some(f)
                &&& f matches LoquiFrame::Error(ef)
                &&& ef.flags == 0
                &&& ef.sequence_id == err.1
                &&& ef.code == INTERNAL_SERVER_ERROR_CODE
                &&& ef.payload@ == rendered_bytes(err.0@)
                &&& out.pending is None
                &&& *final(self) == *old(self)
            })),
            // An explicit close request is terminal at any state.
            event matches Event::Close ==> ({
                &&& r matches Err(e)
                &&& e == LoquiError::ConnectionCloseRequested
                &&& *final(self) == *old(self)
            }),
    {
        match event {
            Event::Ping => self.handle_ping(),
            Event::SocketReceive(frame) => self.handle_frame(frame),
            Event::InternalEvent(internal_event) => self.handle_internal_event(internal_event),
            Event::ResponseComplete(response) => self.handle_response_complete(response),
            Event::Close => self.handle_close(),
        }
    }

    fn handle_close(&mut self) -> (r: Result<Outcome<H::Pending>, LoquiError>)
        ensures
            r matches Err(e) && e == LoquiError::ConnectionCloseRequested,
            *final(self) == *old(self),
    {
        Err(LoquiError::ConnectionCloseRequested)
    }

    /// Handles a request to ping the other side. Fails if a `Pong` hasn't
    /// been received since the last ping.
    fn handle_ping(&mut self) -> (r: Result<Outcome<H::Pending>, LoquiError>)
        ensures
            old(self).is_idle() ==> ({
                &&& r matches Ok(out)
                &&& out.frame == Some(
                    LoquiFrame::Ping(
                        (Ping { flags: 0, sequence_id: wrapping_next(old(self).sequence_value()) }),
                    ),
                )
                &&& out.pending is None
                &&& !final(self).is_idle()
                &&& final(self).sequence_value() == wrapping_next(old(self).sequence_value())
            }),
            !old(self).is_idle() ==> ({
                &&& r matches Err(e)
                &&& e == LoquiError::PingTimeout
                &&& *final(self) == *old(self)
            }),
    {
        if self.pong_received {
            let sequence_id = self.id_sequence.next();
            let ping = Ping { sequence_id, flags: 0 };
            self.pong_received = false;
            Ok(Outcome { frame: Some(LoquiFrame::Ping(ping)), pending: None })
        } else {
            Err(LoquiError::PingTimeout)
        }
    }

    /// Handles a frame received from the socket. Delegates some frames to
    /// the handler; optionally returns a frame to send back.
    fn handle_frame(&mut self, frame: LoquiFrame) -> (r: Result<Outcome<H::Pending>, LoquiError>)
        ensures
            (frame matches LoquiFrame::Hello(_) || frame matches LoquiFrame::HelloAck(_)) ==> ({
                &&& r matches Err(e)
                &&& e == (LoquiError::InvalidOpcode { actual: frame.spec_opcode(), expected: None })
                &&& *final(self) == *old(self)
            }),
            frame matches LoquiFrame::Ping(p) ==> ({
                &&& r matches Ok(out)
                &&& out.frame == Some(
                    LoquiFrame::Pong((Pong { flags: p.flags, sequence_id: p.sequence_id })),
                )
                &&& out.pending is None
                &&& final(self).is_idle() == old(self).is_idle()
                &&& final(self).sequence_value() == old(self).sequence_value()
            }),
            frame matches LoquiFrame::Pong(_) ==> ({
                &&& r matches Ok(out)
                &&& out.frame is None
                &&& out.pending is None
                &&& final(self).is_idle()
                &&& final(self).sequence_value() == old(self).sequence_value()
            }),
            frame.is_delegated() ==> ({
                &&& r matches Ok(out)
                &&& out.frame is None
                &&& final(self).is_idle() == old(self).is_idle()
                &&& final(self).sequence_value() == old(self).sequence_value()
            }),
            frame matches LoquiFrame::GoAway(g) ==> ({
                &&& r matches Err(e)
                &&& e == (LoquiError::ToldToGoAway { go_away: g })
                &&& *final(self) == *old(self)
            }),
    {
        match frame {
            LoquiFrame::Hello(_) | LoquiFrame::HelloAck(_) => self.handle_handshake_frame(frame),
            LoquiFrame::Ping(ping) => self.handle_ping_frame(ping),
            LoquiFrame::Pong(pong) => self.handle_pong_frame(pong),
            LoquiFrame::Request(request) => self.delegate_frame(DelegatedFrame::Request(request)),
            LoquiFrame::Response(response) => self.delegate_frame(
                DelegatedFrame::Response(response),
            ),
            LoquiFrame::Push(push) => self.delegate_frame(DelegatedFrame::Push(push)),
            LoquiFrame::GoAway(go_away) => Err(LoquiError::ToldToGoAway { go_away }),
            LoquiFrame::Error(error) => self.delegate_frame(DelegatedFrame::Error(error)),
        }
    }

    /// Handshake should have already completed; a handshake frame here is an
    /// error.
    fn handle_handshake_frame(&mut self, frame: LoquiFrame) -> (r: Result<
        Outcome<H::Pending>,
        LoquiError,
    >)
        ensures
            r matches Err(e) && e == (LoquiError::InvalidOpcode {
                actual: frame.spec_opcode(),
                expected: None,
            }),
            *final(self) == *old(self),
    {
        Err(LoquiError::InvalidOpcode { actual: frame.opcode(), expected: None })
    }

    /// Delegates a frame to the handler. Whatever pending computation the
    /// handler returns is handed back to the caller to run; no frame is sent
    /// from this call.
    fn delegate_frame(&mut self, delegated_frame: DelegatedFrame) -> (r: Result<
        Outcome<H::Pending>,
        LoquiError,
    >)
        ensures
            r matches Ok(out) && out.frame is None,
            final(self).is_idle() == old(self).is_idle(),
            final(self).sequence_value() == old(self).sequence_value(),
    {
        let maybe_pending = self.handler.handle_frame(delegated_frame, &self.encoder);
        Ok(Outcome { frame: None, pending: maybe_pending })
    }

    /// Answers a peer-initiated ping with a pong echoing it, and notifies
    /// the handler that a ping occurred.
    fn handle_ping_frame(&mut self, ping: Ping) -> (r: Result<Outcome<H::Pending>, LoquiError>)
        ensures
            r matches Ok(out) && out.frame == Some(
                LoquiFrame::Pong((Pong { flags: ping.flags, sequence_id: ping.sequence_id })),
            ) && out.pending is None,
            final(self).is_idle() == old(self).is_idle(),
            final(self).sequence_value() == old(self).sequence_value(),
    {
        let pong = Pong { flags: ping.flags, sequence_id: ping.sequence_id };
        self.handler.handle_ping();
        Ok(Outcome { frame: Some(LoquiFrame::Pong(pong)), pending: None })
    }

    fn handle_pong_frame(&mut self, _pong: Pong) -> (r: Result<Outcome<H::Pending>, LoquiError>)
        ensures
            r matches Ok(out) && out.frame is None && out.pending is None,
            final(self).is_idle(),
            final(self).sequence_value() == old(self).sequence_value(),
    {
        self.pong_received = true;
        Ok(Outcome { frame: None, pending: None })
    }

    /// A delegated computation finished: send its response back, or report
    /// its failure on the wire without closing the connection.
    fn handle_response_complete(&mut self, result: Result<Response, (String, u32)>) -> (r: Result<
        Outcome<H::Pending>,
        LoquiError,
    >)
        ensures
            result matches Ok(response) ==> ({
                &&& r matches Ok(out)
                &&& out.frame == Some(LoquiFrame::Response(response))
                &&& out.pending is None
            }),
            result matches Err(err) ==> ({
                &&& r matches Ok(out)
                &&& out.frame matches Some(f)
                &&& f matches LoquiFrame::Error(ef)
                &&& ef.flags == 0
                &&& ef.sequence_id == err.1
                &&& ef.code == INTERNAL_SERVER_ERROR_CODE
                &&& ef.payload@ == rendered_bytes(err.0@)
                &&& out.pending is None
            }),
            *final(self) == *old(self),
    {
        match result {
            Ok(response) => Ok(Outcome { frame: Some(LoquiFrame::Response(response)), pending: None }),
            Err((error, sequence_id)) => {
                let payload = render_error_payload(error.as_str());
                let error_frame = ErrorFrame {
                    flags: 0,
                    sequence_id,
                    code: INTERNAL_SERVER_ERROR_CODE,
                    payload,
                };
                Ok(Outcome { frame: Some(LoquiFrame::Error(error_frame)), pending: None })
            },
        }
    }

    /// Forwards an application event to the handler, lending it the
    /// sequence generator and the encoder; its frame, if any, is passed
    /// through unmodified.
    fn handle_internal_event(&mut self, internal_event: H::InternalEvent) -> (r: Result<
        Outcome<H::Pending>,
        LoquiError,
    >)
        ensures
            r matches Ok(out) && out.pending is None,
            final(self).is_idle() == old(self).is_idle(),
    {
        let frame = self.handler.handle_internal_event(
            internal_event,
            &mut self.id_sequence,
            &self.encoder,
        );
        Ok(Outcome { frame, pending: None })
    }
}

} // verus!
