//! The single peer connection and its exclusive guard. The connection is
//! strictly synchronous — a send must be answered by exactly one receive
//! before the next send — and it is touched from two places: the relay path
//! (send, then await the reply) and the background receive loop. One owner at
//! a time holds the connection; an acquire is granted only when it is free,
//! so a relay round trip and the receive loop's receive are never in flight
//! together.

use vstd::prelude::*;

verus! {

/// Transport-level tuning applied to the connection when it is opened:
/// zero linger on shutdown, no queuing to an unreachable peer, and bounded
/// send and receive buffering.
pub struct LinkConfig {
    pub linger_ms: u32,
    pub immediate: bool,
    pub send_high_water_mark: u32,
    pub receive_high_water_mark: u32,
}

impl LinkConfig {
    /// The tuning the bridge opens its connection with: close without
    /// lingering, drop rather than queue to a disconnected peer, and buffer
    /// at most a thousand messages each way.
    pub fn realtime() -> (c: LinkConfig)
        ensures
            c.linger_ms == 0,
            c.immediate == true,
            c.send_high_water_mark == 1000,
            c.receive_high_water_mark == 1000,
    {
        LinkConfig {
            linger_ms: 0,
            immediate: true,
            send_high_water_mark: 1000,
            receive_high_water_mark: 1000,
        }
    }
}

/// Who holds the exclusive guard on the peer connection.
#[derive(PartialEq, Eq, Structural, Clone, Copy, Debug)]
pub enum LinkOwner {
    /// The connection is free.
    Idle,
    /// The relay path holds it for one send-and-await-reply round trip.
    Relay,
    /// The receive loop holds it for one blocking receive.
    Receiver,
}

/// The guard operations the two call sites perform.
#[derive(PartialEq, Eq, Structural, Clone, Copy, Debug)]
pub enum GuardEvent {
    RelayAcquire,
    RelayRelease,
    ReceiverAcquire,
    ReceiverRelease,
}

/// Whether the relay path holds the connection.
pub open spec fn relay_holds(o: LinkOwner) -> bool {
    o == LinkOwner::Relay
}

/// Whether the receive loop holds the connection.
pub open spec fn receiver_holds(o: LinkOwner) -> bool {
    o == LinkOwner::Receiver
}

/// The guard protocol. An acquire is granted only when the connection is
/// free; a holder's release frees it; any other pairing changes nothing (the
/// acquire is refused or blocks, and a release by a non-holder does not
/// happen — the executable interface requires holding before releasing).
pub open spec fn guard_step(o: LinkOwner, e: GuardEvent) -> LinkOwner {
    match (o, e) {
        (LinkOwner::Idle, GuardEvent::RelayAcquire) => LinkOwner::Relay,
        (LinkOwner::Relay, GuardEvent::RelayRelease) => LinkOwner::Idle,
        (LinkOwner::Idle, GuardEvent::ReceiverAcquire) => LinkOwner::Receiver,
        (LinkOwner::Receiver, GuardEvent::ReceiverRelease) => LinkOwner::Idle,
        _ => o,
    }
}

/// The holder of the guard after a whole sequence of guard operations,
/// starting from a free connection.
pub open spec fn owner_after(events: Seq<GuardEvent>) -> LinkOwner
    decreases events.len(),
{
    if events.len() == 0 {
        LinkOwner::Idle
    } else {
        guard_step(owner_after(events.drop_last()), events.last())
    }
}

/// The holder of the guard after the first `i` guard operations.
pub open spec fn owner_at(events: Seq<GuardEvent>, i: int) -> LinkOwner {
    owner_after(events.take(i))
}

/// The relay's send-and-await-reply never runs concurrently with the receive
/// loop's receive: at no instant of any interleaving of guard operations do
/// both hold the connection.
pub proof fn lemma_guard_mutual_exclusion(events: Seq<GuardEvent>, i: int)
    ensures
        !(relay_holds(owner_at(events, i)) && receiver_holds(owner_at(events, i))),
{
}

/// While the relay path holds the connection and has not released it, the
/// receive loop cannot acquire it, whatever it tries: the relay still holds
/// the connection at every later instant of such an interval, and the receive
/// loop holds it at none of them.
pub proof fn lemma_relay_round_trip_exclusive(events: Seq<GuardEvent>, i: int, j: int)
    requires
        0 <= i <= j <= events.len(),
        relay_holds(owner_at(events, i)),
        forall|k: int| i <= k < j ==> events[k] != GuardEvent::RelayRelease,
    ensures
        relay_holds(owner_at(events, j)),
        !receiver_holds(owner_at(events, j)),
    decreases j - i,
{
    if i < j {
        lemma_relay_round_trip_exclusive(events, i, j - 1);
        assert(events.take(j).drop_last() == events.take(j - 1));
        assert(owner_at(events, j) == guard_step(owner_at(events, j - 1), events[j - 1]));
    }
}

/// The mirror image: while the receive loop holds the connection and has not
/// released it, no relay round trip can begin.
pub proof fn lemma_receive_exclusive(events: Seq<GuardEvent>, i: int, j: int)
    requires
        0 <= i <= j <= events.len(),
        receiver_holds(owner_at(events, i)),
        forall|k: int| i <= k < j ==> events[k] != GuardEvent::ReceiverRelease,
    ensures
        receiver_holds(owner_at(events, j)),
        !relay_holds(owner_at(events, j)),
    decreases j - i,
{
    if i < j {
        lemma_receive_exclusive(events, i, j - 1);
        assert(events.take(j).drop_last() == events.take(j - 1));
        assert(owner_at(events, j) == guard_step(owner_at(events, j - 1), events[j - 1]));
    }
}

/// The guard on the single peer connection, as the bridge tracks it. The
/// blocking calls themselves happen outside; this type decides who may make
/// them, following `guard_step` exactly.
pub struct TransportLink {
    owner: LinkOwner,
    config: LinkConfig,
}

impl TransportLink {
    /// Who holds the connection.
    pub closed spec fn spec_owner(&self) -> LinkOwner {
        self.owner
    }

    /// The tuning the connection was opened with.
    pub closed spec fn spec_config(&self) -> LinkConfig {
        self.config
    }

    /// A freshly connected link: nobody holds it, tuned for real time.
    pub fn new() -> (link: TransportLink)
        ensures
            link.spec_owner() == LinkOwner::Idle,
            link.spec_config().linger_ms == 0,
            link.spec_config().immediate == true,
            link.spec_config().send_high_water_mark == 1000,
            link.spec_config().receive_high_water_mark == 1000,
    {
        TransportLink { owner: LinkOwner::Idle, config: LinkConfig::realtime() }
    }

    /// Who holds the connection.
    pub fn owner_ref(&self) -> (o: &LinkOwner)
        ensures
            *o == self.spec_owner(),
    {
        &self.owner
    }

    /// The tuning to apply to the underlying connection.
    pub fn config(&self) -> (c: &LinkConfig)
        ensures
            *c == self.spec_config(),
    {
        &self.config
    }

    /// The relay path asks for the connection. Granted exactly when the
    /// connection is free; refused otherwise, leaving the holder as it was —
    /// the caller drops its message rather than queue or retry.
    pub fn try_acquire_for_relay(&mut self) -> (granted: bool)
        ensures
            granted == (old(self).spec_owner() == LinkOwner::Idle),
            final(self).spec_owner() == guard_step(old(self).spec_owner(), GuardEvent::RelayAcquire),
            granted ==> relay_holds(final(self).spec_owner()),
            !granted ==> final(self).spec_owner() == old(self).spec_owner(),
            final(self).spec_config() == old(self).spec_config(),
    {
        if self.owner == LinkOwner::Idle {
            self.owner = LinkOwner::Relay;
            true
        } else {
            false
        }
    }

    /// The relay path hands the connection back after its round trip.
    pub fn release_from_relay(&mut self)
        requires
            relay_holds(old(self).spec_owner()),
        ensures
            final(self).spec_owner() == guard_step(
                old(self).spec_owner(),
                GuardEvent::RelayRelease,
            ),
            final(self).spec_owner() == LinkOwner::Idle,
            final(self).spec_config() == old(self).spec_config(),
    {
        self.owner = LinkOwner::Idle;
    }

    /// The receive loop asks for the connection. Granted exactly when the
    /// connection is free; the loop simply asks again otherwise (its lock
    /// acquisition blocks until the relay path is done).
    pub fn try_acquire_for_receiver(&mut self) -> (granted: bool)
        ensures
            granted == (old(self).spec_owner() == LinkOwner::Idle),
            final(self).spec_owner() == guard_step(
                old(self).spec_owner(),
                GuardEvent::ReceiverAcquire,
            ),
            granted ==> receiver_holds(final(self).spec_owner()),
            !granted ==> final(self).spec_owner() == old(self).spec_owner(),
            final(self).spec_config() == old(self).spec_config(),
    {
        if self.owner == LinkOwner::Idle {
            self.owner = LinkOwner::Receiver;
            true
        } else {
            false
        }
    }

    /// The receive loop hands the connection back — before anything is
    /// delivered to clients, so broadcast latency never stalls the transport.
    pub fn release_from_receiver(&mut self)
        requires
            receiver_holds(old(self).spec_owner()),
        ensures
            final(self).spec_owner() == guard_step(
                old(self).spec_owner(),
                GuardEvent::ReceiverRelease,
            ),
            final(self).spec_owner() == LinkOwner::Idle,
            final(self).spec_config() == old(self).spec_config(),
    {
        self.owner = LinkOwner::Idle;
    }
}

} // verus!
