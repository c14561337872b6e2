//! The per-connection session lifecycle: `Connecting` during the handshake,
//! `Active` while registered and exchanging frames, `Closed` after teardown.
//! The lifecycle is strictly linear: each transition happens at most once, in
//! that order, and there is no way out of `Closed`.

use vstd::prelude::*;

verus! {

use crate::SessionId;

/// Lifecycle state of one client connection.
#[derive(PartialEq, Eq, Structural, Clone, Copy, Debug)]
pub enum SessionState {
    Connecting,
    Active,
    Closed,
}

/// What a connection reports to its session: a completed WebSocket upgrade,
/// or the end of the connection (client disconnect, protocol error, or
/// process shutdown — the lifecycle does not distinguish the cause).
#[derive(PartialEq, Eq, Structural, Clone, Copy, Debug)]
pub enum SessionEvent {
    Upgrade,
    Disconnect,
}

/// How far along the linear lifecycle a state is.
pub open spec fn rank(s: SessionState) -> int {
    match s {
        SessionState::Connecting => 0,
        SessionState::Active => 1,
        SessionState::Closed => 2,
    }
}

/// The lifecycle transition relation: an upgrade activates a connecting
/// session, the end of the connection closes an active one, and every other
/// pairing leaves the state where it was.
pub open spec fn lifecycle_step(s: SessionState, e: SessionEvent) -> SessionState {
    match (s, e) {
        (SessionState::Connecting, SessionEvent::Upgrade) => SessionState::Active,
        (SessionState::Active, SessionEvent::Disconnect) => SessionState::Closed,
        _ => s,
    }
}

/// The state a fresh connection is in after the whole event sequence.
pub open spec fn state_after(events: Seq<SessionEvent>) -> SessionState
    decreases events.len(),
{
    if events.len() == 0 {
        SessionState::Connecting
    } else {
        lifecycle_step(state_after(events.drop_last()), events.last())
    }
}

/// The state a fresh connection is in after the first `i` events.
pub open spec fn state_at(events: Seq<SessionEvent>, i: int) -> SessionState {
    state_after(events.take(i))
}

/// The lifecycle enters state `t` at position `i` of the event sequence.
pub open spec fn enters_at(events: Seq<SessionEvent>, i: int, t: SessionState) -> bool {
    &&& 0 <= i < events.len()
    &&& state_at(events, i) != t
    &&& state_at(events, i + 1) == t
}

/// One step never moves the lifecycle backwards, and never skips a state.
proof fn lemma_step_rank(s: SessionState, e: SessionEvent)
    ensures
        rank(s) <= rank(lifecycle_step(s, e)) <= rank(s) + 1,
{
}

/// The lifecycle never moves backwards over any event sequence: the rank of
/// the state is monotone along the trace.
pub proof fn lemma_lifecycle_monotone(events: Seq<SessionEvent>, i: int, j: int)
    requires
        0 <= i <= j <= events.len(),
    ensures
        rank(state_at(events, i)) <= rank(state_at(events, j)),
    decreases j - i,
{
    if i < j {
        lemma_lifecycle_monotone(events, i, j - 1);
        assert(events.take(j).drop_last() == events.take(j - 1));
        assert(state_at(events, j) == lifecycle_step(state_at(events, j - 1), events[j - 1]));
        lemma_step_rank(state_at(events, j - 1), events[j - 1]);
    }
}

/// Each lifecycle state is entered at most once over any event sequence: a
/// session becomes `Active` at most once and `Closed` at most once.
pub proof fn lemma_lifecycle_enters_once(
    events: Seq<SessionEvent>,
    i: int,
    j: int,
    t: SessionState,
)
    requires
        enters_at(events, i, t),
        enters_at(events, j, t),
    ensures
        i == j,
{
    // If the entries were ordered, the state would be t just after the
    // earlier one, not t again at the later one, and t once more right after
    // it: the rank would have to climb above rank(t) and come back down,
    // which monotonicity forbids.
    if i < j {
        lemma_lifecycle_monotone(events, i + 1, j);
        lemma_lifecycle_monotone(events, j, j + 1);
        lemma_rank_injective(state_at(events, j), t);
        assert(rank(state_at(events, j)) > rank(t));
        assert(rank(state_at(events, j + 1)) == rank(t));
    }
    if j < i {
        lemma_lifecycle_monotone(events, j + 1, i);
        lemma_lifecycle_monotone(events, i, i + 1);
        lemma_rank_injective(state_at(events, i), t);
        assert(rank(state_at(events, i)) > rank(t));
        assert(rank(state_at(events, i + 1)) == rank(t));
    }
}

/// Distinct states have distinct ranks.
proof fn lemma_rank_injective(a: SessionState, b: SessionState)
    ensures
        rank(a) == rank(b) ==> a == b,
{
}

/// A session that becomes `Closed` became `Active` strictly earlier: the two
/// transitions happen in lifecycle order.
pub proof fn lemma_lifecycle_ordered(events: Seq<SessionEvent>, i: int, j: int)
    requires
        enters_at(events, i, SessionState::Active),
        enters_at(events, j, SessionState::Closed),
    ensures
        i < j,
{
    if j <= i {
        lemma_lifecycle_monotone(events, j + 1, i + 1);
        assert(rank(state_at(events, j + 1)) == 2);
        assert(rank(state_at(events, i + 1)) == 1);
    }
}

/// A session that ends `Closed` did pass through both transitions: there is
/// one position where it became `Active` and a later one where it became
/// `Closed`. Together with `lemma_lifecycle_enters_once` and
/// `lemma_lifecycle_ordered`, the lifecycle `Connecting -> Active -> Closed`
/// runs exactly once each, in that order, for every connection that closes.
pub proof fn lemma_closed_has_full_lifecycle(events: Seq<SessionEvent>)
    requires
        state_after(events) == SessionState::Closed,
    ensures
        exists|i: int| enters_at(events, i, SessionState::Active),
        exists|j: int| enters_at(events, j, SessionState::Closed),
{
    lemma_reaches_state(events, SessionState::Closed);
    let j = choose|j: int| enters_at(events, j, SessionState::Closed);
    // Just before closing, the session was Active (the only state a
    // Disconnect closes from), so the Active entry exists in the prefix.
    assert(state_at(events, j) == SessionState::Active) by {
        assert(state_at(events, j + 1) == lifecycle_step(state_at(events, j), events[j])) by {
            assert(events.take(j + 1).drop_last() == events.take(j));
        }
    }
    lemma_reaches_state(events.take(j), SessionState::Active);
    let i = choose|i: int| enters_at(events.take(j), i, SessionState::Active);
    assert(enters_at(events, i, SessionState::Active)) by {
        assert(events.take(j).take(i) == events.take(i));
        assert(events.take(j).take(i + 1) == events.take(i + 1));
    }
}

/// Any state other than `Connecting` that a trace reaches was entered at some
/// position of the trace.
proof fn lemma_reaches_state(events: Seq<SessionEvent>, t: SessionState)
    requires
        t != SessionState::Connecting,
        state_after(events) == t,
    ensures
        exists|i: int| enters_at(events, i, t),
    decreases events.len(),
{
    assert(events.take(events.len() as int) == events);
    let n = events.len() as int;
    if state_at(events, n - 1) == t {
        assert(state_after(events.drop_last()) == t) by {
            assert(events.take(n - 1) == events.drop_last());
        }
        lemma_reaches_state(events.drop_last(), t);
        let i = choose|i: int| enters_at(events.drop_last(), i, t);
        assert(enters_at(events, i, t)) by {
            assert(events.drop_last().take(i) == events.take(i));
            assert(events.drop_last().take(i + 1) == events.take(i + 1));
        }
    } else {
        assert(enters_at(events, n - 1, t));
    }
}

/// One client session: its stable identity and where it is in its lifecycle.
pub struct Session {
    id: SessionId,
    state: SessionState,
}

impl Session {
    /// The session's stable identity, assigned at connection creation.
    pub closed spec fn spec_id(&self) -> SessionId {
        self.id
    }

    /// The session's current lifecycle state.
    pub closed spec fn spec_state(&self) -> SessionState {
        self.state
    }

    /// A new session for a connection whose handshake is in progress. It is
    /// not yet in the registry.
    pub fn new(id: SessionId) -> (s: Session)
        ensures
            s.spec_id() == id,
            s.spec_state() == SessionState::Connecting,
    {
        Session { id, state: SessionState::Connecting }
    }

    /// The session's identity.
    pub fn id(&self) -> (r: SessionId)
        ensures
            r == self.spec_id(),
    {
        self.id
    }

    /// The session's current lifecycle state.
    pub fn state(&self) -> (r: SessionState)
        ensures
            r == self.spec_state(),
    {
        self.state
    }

    /// Whether the session is currently `Active`.
    pub fn is_active(&self) -> (r: bool)
        ensures
            r == (self.spec_state() == SessionState::Active),
    {
        self.state == SessionState::Active
    }

    /// The successful WebSocket upgrade: the one transition
    /// `Connecting -> Active`. Entering `Active` is when the session joins
    /// the registry.
    pub fn activate(&mut self)
        requires
            old(self).spec_state() == SessionState::Connecting,
        ensures
            final(self).spec_state() == SessionState::Active,
            final(self).spec_state() == lifecycle_step(
                old(self).spec_state(),
                SessionEvent::Upgrade,
            ),
            final(self).spec_id() == old(self).spec_id(),
    {
        self.state = SessionState::Active;
    }

    /// The end of the connection: the one transition `Active -> Closed`.
    /// Leaving `Active` is when the session leaves the registry.
    pub fn close(&mut self)
        requires
            old(self).spec_state() == SessionState::Active,
        ensures
            final(self).spec_state() == SessionState::Closed,
            final(self).spec_state() == lifecycle_step(
                old(self).spec_state(),
                SessionEvent::Disconnect,
            ),
            final(self).spec_id() == old(self).spec_id(),
    {
        self.state = SessionState::Closed;
    }
}

} // verus!
