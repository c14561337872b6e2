//! The bridge: one transport link to the peer, one registry of client
//! sessions, and the rules that connect them. Client text is relayed to the
//! peer over an exclusive round trip; whatever the peer pushes is broadcast
//! to a snapshot of the registry. The blocking transport calls themselves
//! happen outside; the bridge decides what may happen and what each outcome
//! means, and every decision is total — no input, however malformed, makes
//! it panic.

use vstd::prelude::*;

verus! {

use crate::SessionId;
use crate::registry::{ClientRegistry, Delivery, is_broadcast_plan};
use crate::transport::{GuardEvent, LinkOwner, TransportLink, guard_step, receiver_holds, relay_holds};

/// Why a relay call failed without reaching the peer.
#[derive(PartialEq, Eq, Structural, Clone, Copy, Debug)]
pub enum TransportError {
    /// The exclusive guard on the connection could not be acquired; the
    /// message is dropped — not queued, not retried.
    LockUnavailable,
}

/// What one blocking receive on the transport produced: a text message,
/// bytes that were not valid UTF-8, or a connection-level error.
pub enum PeerReceipt {
    Text(String),
    MalformedText,
    LinkError,
}

/// What a relay round trip produced after the guard was acquired: the send
/// itself failed, or it went out and the next receive gave this receipt.
pub enum RelayIo {
    SendFailed,
    Reply(PeerReceipt),
}

/// One line the bridge asks its logger to record. Logging is the only thing
/// that happens to a relay reply, and the only trace of every recoverable
/// error.
#[derive(PartialEq, Eq, Debug)]
pub enum LogEvent {
    /// A session entered the registry.
    ClientConnected,
    /// A session left the registry.
    ClientDisconnected,
    /// The peer pushed this text; it is being broadcast.
    PeerBroadcast(String),
    /// A relay round trip observed this reply. It is logged, never delivered
    /// to any client, and — the transport being contended by two call
    /// sites — it is best-effort correlation only, not a transactional
    /// response to the relayed message.
    RelayReply(String),
    /// A relay call found the guard taken and dropped its message.
    RelayDropped,
    /// A relay send failed at the transport.
    RelaySendFailed,
    /// A relay reply was not valid UTF-8.
    ReplyMalformed,
    /// A relay reply failed at the connection level.
    ReplyLinkError,
    /// The receive loop read bytes that were not valid UTF-8.
    ReceiveMalformed,
    /// The receive loop hit a connection-level error.
    ReceiveLinkError,
}

/// What the bridge logs for each relay outcome.
pub open spec fn relay_log(io: RelayIo) -> LogEvent {
    match io {
        RelayIo::SendFailed => LogEvent::RelaySendFailed,
        RelayIo::Reply(PeerReceipt::Text(s)) => LogEvent::RelayReply(s),
        RelayIo::Reply(PeerReceipt::MalformedText) => LogEvent::ReplyMalformed,
        RelayIo::Reply(PeerReceipt::LinkError) => LogEvent::ReplyLinkError,
    }
}

/// What the bridge logs for each receipt of the receive loop.
pub open spec fn receive_log(r: PeerReceipt) -> LogEvent {
    match r {
        PeerReceipt::Text(s) => LogEvent::PeerBroadcast(s),
        PeerReceipt::MalformedText => LogEvent::ReceiveMalformed,
        PeerReceipt::LinkError => LogEvent::ReceiveLinkError,
    }
}

/// What one turn of the receive loop comes to: the line to log, and, for a
/// well-formed message, one delivery per client of the snapshot. An error
/// produces no deliveries and ends nothing — the loop goes on.
pub struct ReceiveOutcome {
    pub log: LogEvent,
    pub deliveries: Option<Vec<Delivery>>,
}

/// The bridge. It exclusively owns the transport link and the client
/// registry for the life of the process.
pub struct Bridge {
    link: TransportLink,
    registry: ClientRegistry,
}

impl Bridge {
    /// The identities of the currently connected sessions.
    pub closed spec fn clients(&self) -> Seq<SessionId> {
        self.registry@
    }

    /// Who currently holds the transport guard.
    pub closed spec fn owner(&self) -> LinkOwner {
        self.link.spec_owner()
    }

    /// The registry never holds a session twice.
    pub open spec fn wf(&self) -> bool {
        self.clients().no_duplicates()
    }

    /// A bridge over a freshly connected link: no clients, guard free.
    pub fn new() -> (b: Bridge)
        ensures
            b.wf(),
            b.clients() == Seq::<SessionId>::empty(),
            b.owner() == LinkOwner::Idle,
    {
        Bridge { link: TransportLink::new(), registry: ClientRegistry::new() }
    }

    /// Who currently holds the transport guard.
    pub fn guard_owner(&self) -> (o: LinkOwner)
        ensures
            o == self.owner(),
    {
        *self.link.owner_ref()
    }

    /// How many clients are connected.
    pub fn client_count(&self) -> (n: usize)
        ensures
            n == self.clients().len(),
    {
        self.registry.len()
    }

    /// Whether `id` is currently registered.
    pub fn is_client(&self, id: SessionId) -> (r: bool)
        ensures
            r == self.clients().contains(id),
    {
        self.registry.is_member(id)
    }

    /// A session entered `Active`: it joins the registry (idempotently for
    /// the same identity) and a connect event is logged.
    pub fn session_opened(&mut self, id: SessionId) -> (log: LogEvent)
        requires
            old(self).wf(),
        ensures
            final(self).wf(),
            final(self).clients() == if old(self).clients().contains(id) {
                old(self).clients()
            } else {
                old(self).clients().push(id)
            },
            final(self).clients().contains(id),
            forall|x: SessionId| #[trigger]
                final(self).clients().contains(x) <==> (old(self).clients().contains(x) || x
                    == id),
            final(self).owner() == old(self).owner(),
            log == LogEvent::ClientConnected,
    {
        self.registry.add(id);
        LogEvent::ClientConnected
    }

    /// A session left `Active`: it leaves the registry (a no-op for an
    /// identity that is not there) and a disconnect event is logged.
    pub fn session_closed(&mut self, id: SessionId) -> (log: LogEvent)
        requires
            old(self).wf(),
        ensures
            final(self).wf(),
            !final(self).clients().contains(id),
            forall|x: SessionId|
                x != id ==> (#[trigger] final(self).clients().contains(x) <==> old(
                    self,
                ).clients().contains(x)),
            final(self).clients().len() == if old(self).clients().contains(id) {
                old(self).clients().len() - 1
            } else {
                old(self).clients().len() as int
            },
            final(self).owner() == old(self).owner(),
            log == LogEvent::ClientDisconnected,
    {
        self.registry.remove(id);
        LogEvent::ClientDisconnected
    }

    /// A session relays a client's text: the bridge asks for the connection.
    /// Granted exactly when the guard is free; otherwise the call fails with
    /// `LockUnavailable` and the message is dropped, with nothing else
    /// changed. On success the caller performs the blocking send and the
    /// blocking wait for one reply, then hands the outcome to
    /// `relay_finish`.
    pub fn relay_begin(&mut self) -> (r: Result<(), TransportError>)
        ensures
            r is Ok <==> old(self).owner() == LinkOwner::Idle,
            r is Err ==> r == Result::<(), TransportError>::Err(TransportError::LockUnavailable),
            final(self).owner() == guard_step(old(self).owner(), GuardEvent::RelayAcquire),
            r is Ok ==> relay_holds(final(self).owner()),
            r is Err ==> final(self).owner() == old(self).owner(),
            final(self).clients() == old(self).clients(),
    {
        if self.link.try_acquire_for_relay() {
            Ok(())
        } else {
            Err(TransportError::LockUnavailable)
        }
    }

    /// The relay round trip is over: the guard is released and the outcome
    /// is turned into the one line to log. A reply reaches no client — the
    /// registry is untouched and no delivery is produced; inbound client
    /// messages and outbound peer broadcasts are independent channels.
    pub fn relay_finish(&mut self, io: RelayIo) -> (log: LogEvent)
        requires
            relay_holds(old(self).owner()),
        ensures
            final(self).owner() == LinkOwner::Idle,
            final(self).clients() == old(self).clients(),
            log == relay_log(io),
    {
        self.link.release_from_relay();
        match io {
            RelayIo::SendFailed => LogEvent::RelaySendFailed,
            RelayIo::Reply(PeerReceipt::Text(s)) => LogEvent::RelayReply(s),
            RelayIo::Reply(PeerReceipt::MalformedText) => LogEvent::ReplyMalformed,
            RelayIo::Reply(PeerReceipt::LinkError) => LogEvent::ReplyLinkError,
        }
    }

    /// The receive loop asks for the connection for one blocking receive.
    /// Granted exactly when the guard is free; the loop asks again otherwise.
    pub fn receive_begin(&mut self) -> (granted: bool)
        ensures
            granted <==> old(self).owner() == LinkOwner::Idle,
            final(self).owner() == guard_step(old(self).owner(), GuardEvent::ReceiverAcquire),
            granted ==> receiver_holds(final(self).owner()),
            !granted ==> final(self).owner() == old(self).owner(),
            final(self).clients() == old(self).clients(),
    {
        self.link.try_acquire_for_receiver()
    }

    /// One receive is done: the guard is released **first**, so no client
    /// delivery ever happens while the connection is held; then the receipt
    /// is turned into a log line and, for a well-formed message, into one
    /// delivery of exactly that text per client of the snapshot. Malformed
    /// bytes and connection errors deliver nothing and change nothing: they
    /// are logged and the loop continues.
    pub fn receive_finish(&mut self, receipt: PeerReceipt) -> (out: ReceiveOutcome)
        requires
            receiver_holds(old(self).owner()),
        ensures
            final(self).owner() == LinkOwner::Idle,
            final(self).clients() == old(self).clients(),
            out.log == receive_log(receipt),
            receipt matches PeerReceipt::Text(s) ==> (out.deliveries matches Some(plan)
                && is_broadcast_plan(old(self).clients(), s@, plan@)),
            !(receipt is Text) ==> out.deliveries is None,
    {
        self.link.release_from_receiver();
        match receipt {
            PeerReceipt::Text(s) => {
                let plan = self.registry.broadcast(s.as_str());
                ReceiveOutcome { log: LogEvent::PeerBroadcast(s), deliveries: Some(plan) }
            },
            PeerReceipt::MalformedText => ReceiveOutcome {
                log: LogEvent::ReceiveMalformed,
                deliveries: None,
            },
            PeerReceipt::LinkError => ReceiveOutcome {
                log: LogEvent::ReceiveLinkError,
                deliveries: None,
            },
        }
    }
}

/// Why the process refused to start.
#[derive(PartialEq, Eq, Structural, Clone, Copy, Debug)]
pub enum StartupError {
    /// The transport connection to the peer could not be established.
    TransportConnect,
    /// The TLS private key could not be loaded.
    TlsKeyLoad,
    /// The TLS certificate chain could not be loaded.
    TlsCertificateLoad,
}

/// The startup rule: serve only when the transport connected and both pieces
/// of TLS material loaded, checked in that order.
pub open spec fn startup_rule(
    transport_connected: bool,
    tls_key_loaded: bool,
    tls_certificate_loaded: bool,
) -> Result<(), StartupError> {
    if !transport_connected {
        Err(StartupError::TransportConnect)
    } else if !tls_key_loaded {
        Err(StartupError::TlsKeyLoad)
    } else if !tls_certificate_loaded {
        Err(StartupError::TlsCertificateLoad)
    } else {
        Ok(())
    }
}

/// Decides whether the process may bind its serving port and start. The
/// three inputs are startup preconditions: any failure is fatal, and in
/// particular a transport connect failure stops the process before the
/// serving port is bound.
pub fn startup_decision(
    transport_connected: bool,
    tls_key_loaded: bool,
    tls_certificate_loaded: bool,
) -> (r: Result<(), StartupError>)
    ensures
        r == startup_rule(transport_connected, tls_key_loaded, tls_certificate_loaded),
        r is Ok <==> (transport_connected && tls_key_loaded && tls_certificate_loaded),
{
    if !transport_connected {
        Err(StartupError::TransportConnect)
    } else if !tls_key_loaded {
        Err(StartupError::TlsKeyLoad)
    } else if !tls_certificate_loaded {
        Err(StartupError::TlsCertificateLoad)
    } else {
        Ok(())
    }
}

} // verus!
