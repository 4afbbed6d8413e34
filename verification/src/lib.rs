//! Per-connection engine of a binary request/response wire protocol.
//!
//! The engine sits between a transport loop, which turns wire bytes and
//! timers into [`event_handler::Event`] values, and a pluggable
//! [`handler::Handler`], which holds the application's business logic. One
//! call of [`event_handler::EventHandler::handle_event`] per event decides
//! what frame, if any, goes back over the wire next, or fails with a
//! connection-fatal [`error::LoquiError`].

pub mod error;
pub mod event_handler;
pub mod frames;
pub mod handler;
pub mod id_sequence;
pub mod render;
