//! Timestamped log lines. The clock comes from outside; everything about the
//! shape of a line, and the text each bridge event is logged with, is
//! verified.

use vstd::prelude::*;
use vstd::string::StringExecFns;

verus! {

use crate::bridge::LogEvent;

/// Relies on `chrono::Local::now` and `chrono::DateTime::format` with the
/// fixed pattern `%Y-%m-%d %H:%M:%S` (a valid pattern, so rendering does not
/// panic). The text depends on the clock at the instant of the call, so
/// nothing is stated of its value.
#[verifier::external_body]
fn current_timestamp() -> String {
    chrono::Local::now().format("%Y-%m-%d %H:%M:%S").to_string()
}

/// A log line: the timestamp in brackets, a space, then the message.
pub open spec fn log_line_shape(timestamp: Seq<char>, message: Seq<char>) -> Seq<char> {
    "["@ + timestamp + "] "@ + message
}

/// Renders one log line from a timestamp and a message.
pub fn format_log_line(timestamp: &str, message: &str) -> (r: String)
    ensures
        r@ == log_line_shape(timestamp@, message@),
{
    String::from_str("[").concat(timestamp).concat("] ").concat(message)
}

/// Renders one log line for `message`, stamped with the current local time.
/// The line has the verified shape around whatever the clock gave.
pub fn log_line(message: &str) -> (r: String)
    ensures
        exists|ts: Seq<char>| r@ == log_line_shape(ts, message@),
{
    let ts = current_timestamp();
    let r = format_log_line(ts.as_str(), message);
    proof {
        assert(r@ == log_line_shape(ts@, message@));
    }
    r
}

/// The text each bridge event is logged with.
pub open spec fn message_of(e: LogEvent) -> Seq<char> {
    match e {
        LogEvent::ClientConnected => "WS client connected"@,
        LogEvent::ClientDisconnected => "WS client disconnected"@,
        LogEvent::PeerBroadcast(s) => "ZMQ -> WS: "@ + s@,
        LogEvent::RelayReply(s) => "Got reply from ZMQ: "@ + s@,
        LogEvent::RelayDropped => "Failed to acquire socket lock"@,
        LogEvent::RelaySendFailed => "Failed to send to ZMQ"@,
        LogEvent::ReplyMalformed => "ZMQ UTF-8 decode error"@,
        LogEvent::ReplyLinkError => "Socket error on reply"@,
        LogEvent::ReceiveMalformed => "UTF-8 error"@,
        LogEvent::ReceiveLinkError => "Socket error"@,
    }
}

impl LogEvent {
    /// The message this event is logged with.
    pub fn message(&self) -> (r: String)
        ensures
            r@ == message_of(*self),
    {
        match self {
            LogEvent::ClientConnected => String::from_str("WS client connected"),
            LogEvent::ClientDisconnected => String::from_str("WS client disconnected"),
            LogEvent::PeerBroadcast(s) => String::from_str("ZMQ -> WS: ").concat(s.as_str()),
            LogEvent::RelayReply(s) => String::from_str("Got reply from ZMQ: ").concat(s.as_str()),
            LogEvent::RelayDropped => String::from_str("Failed to acquire socket lock"),
            LogEvent::RelaySendFailed => String::from_str("Failed to send to ZMQ"),
            LogEvent::ReplyMalformed => String::from_str("ZMQ UTF-8 decode error"),
            LogEvent::ReplyLinkError => String::from_str("Socket error on reply"),
            LogEvent::ReceiveMalformed => String::from_str("UTF-8 error"),
            LogEvent::ReceiveLinkError => String::from_str("Socket error"),
        }
    }
}

} // verus!
