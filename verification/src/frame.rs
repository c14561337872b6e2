//! What a session does with each thing its WebSocket connection hands it:
//! text frames are relayed to the peer, a close frame and a protocol error
//! tear the session down, and every other frame is ignored by the relay path.

use vstd::prelude::*;

verus! {

/// One WebSocket frame, as the session sees it.
pub enum Frame {
    /// A text frame; its payload is relayed verbatim to the peer.
    Text(String),
    /// A binary frame; the relay path ignores it.
    Binary(Vec<u8>),
    /// A ping frame; the relay path ignores it.
    Ping,
    /// A pong frame; the relay path ignores it.
    Pong,
    /// The client closed the connection.
    Close,
}

/// What the connection hands the session: a frame, or a protocol error on
/// this one connection (malformed input from the client).
pub enum ClientEvent {
    Frame(Frame),
    ProtocolError,
}

/// The session's decision for one client event.
pub enum FrameDisposition {
    /// Relay this text to the peer, verbatim.
    Forward(String),
    /// Tear this session down; no other session is affected.
    Teardown,
    /// Do nothing.
    Ignore,
}

/// What `classify` decides for each event: a text frame is forwarded with
/// exactly its payload; a close frame or a protocol error tears the session
/// down; binary, ping and pong frames are ignored. Nothing crashes: a
/// malformed client input costs at most its own session.
pub open spec fn disposition_of(e: ClientEvent) -> FrameDisposition {
    match e {
        ClientEvent::Frame(Frame::Text(t)) => FrameDisposition::Forward(t),
        ClientEvent::Frame(Frame::Close) => FrameDisposition::Teardown,
        ClientEvent::ProtocolError => FrameDisposition::Teardown,
        _ => FrameDisposition::Ignore,
    }
}

/// Decides what to do with one client event.
pub fn classify(e: ClientEvent) -> (d: FrameDisposition)
    ensures
        d == disposition_of(e),
{
    match e {
        ClientEvent::Frame(f) => match f {
            Frame::Text(t) => FrameDisposition::Forward(t),
            Frame::Close => FrameDisposition::Teardown,
            Frame::Binary(_) => FrameDisposition::Ignore,
            Frame::Ping => FrameDisposition::Ignore,
            Frame::Pong => FrameDisposition::Ignore,
        },
        ClientEvent::ProtocolError => FrameDisposition::Teardown,
    }
}

} // verus!
