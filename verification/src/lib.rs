//! Core of a bidirectional bridge between one synchronous message-queue peer
//! and many WebSocket clients: the client registry, the per-session lifecycle,
//! the exclusive guard on the single peer connection, and the bridge's
//! event-handling rules, all with verified contracts.

use vstd::prelude::*;

pub mod bridge;
pub mod frame;
pub mod logging;
pub mod registry;
pub mod session;
pub mod transport;

verus! {

/// A connected client is named by a stable identity assigned at connection
/// creation; equality of sessions is equality of these identifiers.
pub type SessionId = u64;

} // verus!
