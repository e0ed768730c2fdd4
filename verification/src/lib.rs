//! A verified core for a persistent-connection event relay.
//!
//! The library decodes typed event envelopes out of untyped JSON frames,
//! classifies message events that denote a new threaded reply, and drives a
//! reconnect-capable duplex-stream supervisor as a pure state machine.  All
//! transport work (HTTP calls, the stream itself) is left to the embedding
//! program, which feeds events in and carries actions out.

pub mod classify;
pub mod decode;
pub mod json;
pub mod responses;
pub mod supervisor;
pub mod wire;
