//! The set of currently connected client sessions and the broadcast plan:
//! which sessions a message delivered at a given instant reaches.

use vstd::prelude::*;

verus! {

use crate::SessionId;

/// One planned delivery of a broadcast: the session that receives the text.
pub struct Delivery {
    pub session: SessionId,
    pub text: String,
}

/// The registry of currently connected sessions, held as their identifiers.
///
/// A session identifier appears at most once; membership, not order, is what
/// the registry means, so contracts mostly speak through `contains`.
pub struct ClientRegistry {
    members: Vec<SessionId>,
}

impl View for ClientRegistry {
    type V = Seq<SessionId>;

    closed spec fn view(&self) -> Seq<SessionId> {
        self.members@
    }
}

/// How many entries of `s` equal `id`.
pub open spec fn occurrences(s: Seq<SessionId>, id: SessionId) -> nat
    decreases s.len(),
{
    if s.len() == 0 {
        0
    } else {
        occurrences(s.drop_last(), id) + if s.last() == id {
            1nat
        } else {
            0nat
        }
    }
}

/// How many deliveries of `plan` are addressed to `id`.
pub open spec fn deliveries_to(plan: Seq<Delivery>, id: SessionId) -> nat
    decreases plan.len(),
{
    if plan.len() == 0 {
        0
    } else {
        deliveries_to(plan.drop_last(), id) + if plan.last().session == id {
            1nat
        } else {
            0nat
        }
    }
}

/// `plan` is exactly the snapshot `members`, one delivery of `text` per member,
/// in snapshot order.
pub open spec fn is_broadcast_plan(
    members: Seq<SessionId>,
    text: Seq<char>,
    plan: Seq<Delivery>,
) -> bool {
    &&& plan.len() == members.len()
    &&& forall|i: int|
        0 <= i < plan.len() ==> #[trigger] plan[i].session == members[i] && plan[i].text@ == text
}

impl ClientRegistry {
    /// The registry never holds the same identifier twice.
    pub open spec fn wf(&self) -> bool {
        self@.no_duplicates()
    }

    /// An empty registry: no session is connected yet.
    pub fn new() -> (r: ClientRegistry)
        ensures
            r@ == Seq::<SessionId>::empty(),
            r.wf(),
    {
        ClientRegistry { members: Vec::new() }
    }

    /// Whether `id` is currently a member.
    pub fn is_member(&self, id: SessionId) -> (r: bool)
        ensures
            r == self@.contains(id),
    {
        let mut j: usize = 0;
        while j < self.members.len()
            invariant
                0 <= j <= self.members.len(),
                forall|k: int| 0 <= k < j ==> self.members@[k] != id,
            decreases self.members.len() - j,
        {
            if self.members[j] == id {
                return true;
            }
            j += 1;
        }
        false
    }

    /// How many sessions are connected.
    pub fn len(&self) -> (r: usize)
        ensures
            r == self@.len(),
    {
        self.members.len()
    }

    /// Registers a session. Re-inserting a member is a no-op, so `add` is
    /// idempotent for the same identity.
    pub fn add(&mut self, id: SessionId)
        requires
            old(self).wf(),
        ensures
            final(self).wf(),
            final(self)@ == if old(self)@.contains(id) {
                old(self)@
            } else {
                old(self)@.push(id)
            },
            final(self)@.contains(id),
            forall|x: SessionId| #[trigger]
                final(self)@.contains(x) <==> (old(self)@.contains(x) || x == id),
    {
        if !self.is_member(id) {
            self.members.push(id);
            assert(self@.drop_last() == old(self)@);
            assert(self@.contains(id)) by {
                assert(self@[self@.len() - 1] == id);
            }
            assert forall|x: SessionId| #[trigger]
                self@.contains(x) <==> (old(self)@.contains(x) || x == id) by {
                if self@.contains(x) {
                    let k = choose|k: int| 0 <= k < self@.len() && self@[k] == x;
                    if k < self@.len() - 1 {
                        assert(old(self)@[k] == x);
                    }
                }
                if old(self)@.contains(x) {
                    let k = choose|k: int| 0 <= k < old(self)@.len() && old(self)@[k] == x;
                    assert(self@[k] == x);
                }
            }
        }
    }

    /// Deregisters a session. Removing an absent identity is a no-op.
    pub fn remove(&mut self, id: SessionId)
        requires
            old(self).wf(),
        ensures
            final(self).wf(),
            !final(self)@.contains(id),
            forall|x: SessionId|
                x != id ==> (#[trigger] final(self)@.contains(x) <==> old(self)@.contains(x)),
            final(self)@.len() == if old(self)@.contains(id) {
                old(self)@.len() - 1
            } else {
                old(self)@.len() as int
            },
    {
        let ghost pre = old(self).members@;
        let mut j: usize = 0;
        while j < self.members.len()
            invariant
                pre == old(self).members@,
                self.members@ == pre,
                pre.no_duplicates(),
                0 <= j <= pre.len(),
                forall|k: int| 0 <= k < j ==> pre[k] != id,
            decreases pre.len() - j,
        {
            if self.members[j] == id {
                self.members.remove(j);
                proof {
                    let after = self.members@;
                    assert(pre.contains(id)) by {
                        assert(pre[j as int] == id);
                    }
                    pre.remove_ensures(j as int);
                    assert forall|x: SessionId| after.contains(x) implies pre.contains(x) by {
                        let k = choose|k: int| 0 <= k < after.len() && after[k] == x;
                        if k < j {
                            assert(pre[k] == x);
                        } else {
                            assert(pre[k + 1] == x);
                        }
                    }
                    assert(!after.contains(id)) by {
                        if after.contains(id) {
                            let k = choose|k: int| 0 <= k < after.len() && after[k] == id;
                            if k < j {
                                assert(pre[k] == id);
                            } else {
                                // pre has id at j and at k + 1 > j: two copies
                                assert(pre[k + 1] == id && pre[j as int] == id);
                            }
                        }
                    }
                    assert forall|x: SessionId| x != id && pre.contains(x) implies after.contains(
                        x,
                    ) by {
                        let k = choose|k: int| 0 <= k < pre.len() && pre[k] == x;
                        if k < j {
                            assert(after[k] == x);
                        } else {
                            assert(k != j);
                            assert(after[k - 1] == x);
                        }
                    }
                    assert(after.no_duplicates()) by {
                        assert forall|a: int, b: int|
                            0 <= a < after.len() && 0 <= b < after.len() && a != b implies after[a]
                            != after[b] by {
                            let pa: int = if a < j { a } else { a + 1 };
                            let pb: int = if b < j { b } else { b + 1 };
                            assert(after[a] == pre[pa]);
                            assert(after[b] == pre[pb]);
                            assert(pa != pb);
                            assert(pre[pa] != pre[pb]);
                        }
                    }
                }
                return ;
            }
            j += 1;
        }
        proof {
            assert(!pre.contains(id)) by {
                if pre.contains(id) {
                    let k = choose|k: int| 0 <= k < pre.len() && pre[k] == id;
                    assert(pre[k] != id);
                }
            }
        }
    }

    /// An instantaneous snapshot of the current members.
    pub fn snapshot(&self) -> (r: Vec<SessionId>)
        ensures
            r@ == self@,
    {
        let mut out: Vec<SessionId> = Vec::new();
        let mut j: usize = 0;
        while j < self.members.len()
            invariant
                0 <= j <= self.members.len(),
                out@ == self.members@.take(j as int),
            decreases self.members.len() - j,
        {
            out.push(self.members[j]);
            proof {
                assert(out@ == self.members@.take(j + 1));
            }
            j += 1;
        }
        proof {
            assert(out@ == self@);
        }
        out
    }

    /// Plans a broadcast of `text` over a snapshot of the current members:
    /// one delivery per member, each carrying exactly `text`. Delivery itself
    /// is fire-and-forget and surfaces no error to the broadcaster.
    pub fn broadcast(&self, text: &str) -> (plan: Vec<Delivery>)
        ensures
            is_broadcast_plan(self@, text@, plan@),
    {
        let mut plan: Vec<Delivery> = Vec::new();
        let mut j: usize = 0;
        while j < self.members.len()
            invariant
                0 <= j <= self.members.len(),
                plan@.len() == j,
                forall|i: int|
                    0 <= i < j ==> #[trigger] plan@[i].session == self.members@[i]
                        && plan@[i].text@ == text@,
            decreases self.members.len() - j,
        {
            let ghost prev = plan@;
            let d = Delivery { session: self.members[j], text: text.to_owned() };
            plan.push(d);
            proof {
                assert(forall|i: int| 0 <= i < prev.len() ==> #[trigger] plan@[i] == prev[i]);
                assert(plan@[j as int].session == self.members@[j as int]);
                assert(plan@[j as int].text@ == text@);
            }
            j += 1;
        }
        proof {
            assert(plan@.len() == self@.len());
            assert(forall|i: int|
                0 <= i < plan@.len() ==> #[trigger] plan@[i].session == self@[i]
                    && plan@[i].text@ == text@);
        }
        plan
    }
}

/// In a duplicate-free snapshot, an identifier occurs once if it is a member
/// and never otherwise.
proof fn lemma_occurrences_no_duplicates(s: Seq<SessionId>, id: SessionId)
    requires
        s.no_duplicates(),
    ensures
        occurrences(s, id) == if s.contains(id) {
            1nat
        } else {
            0nat
        },
    decreases s.len(),
{
    if s.len() > 0 {
        let prefix = s.drop_last();
        assert(prefix.no_duplicates());
        lemma_occurrences_no_duplicates(prefix, id);
        if s.last() == id {
            assert(!prefix.contains(id)) by {
                if prefix.contains(id) {
                    let k = choose|k: int| 0 <= k < prefix.len() && prefix[k] == id;
                    assert(s[k] == id && s[s.len() - 1] == id);
                }
            }
            assert(s.contains(id)) by {
                assert(s[s.len() - 1] == id);
            }
        } else {
            assert(s.contains(id) <==> prefix.contains(id)) by {
                if s.contains(id) {
                    let k = choose|k: int| 0 <= k < s.len() && s[k] == id;
                    assert(prefix[k] == id);
                }
                if prefix.contains(id) {
                    let k = choose|k: int| 0 <= k < prefix.len() && prefix[k] == id;
                    assert(s[k] == id);
                }
            }
        }
    }
}

/// A plan that follows a snapshot pointwise addresses each identifier exactly
/// as often as the snapshot holds it.
proof fn lemma_deliveries_follow_members(
    members: Seq<SessionId>,
    text: Seq<char>,
    plan: Seq<Delivery>,
    id: SessionId,
)
    requires
        is_broadcast_plan(members, text, plan),
    ensures
        deliveries_to(plan, id) == occurrences(members, id),
    decreases plan.len(),
{
    if plan.len() > 0 {
        assert(is_broadcast_plan(members.drop_last(), text, plan.drop_last())) by {
            assert(forall|i: int|
                0 <= i < plan.len() - 1 ==> #[trigger] plan.drop_last()[i] == plan[i]);
        }
        lemma_deliveries_follow_members(members.drop_last(), text, plan.drop_last(), id);
        assert(plan.last().session == members.last()) by {
            assert(plan[plan.len() - 1].session == members[plan.len() - 1]);
        }
    }
}

/// Every session that is a member at the instant a broadcast is planned
/// receives the message exactly once, and no other session receives it at
/// all — in particular, a session removed strictly before that instant, which
/// is then no longer a member, receives nothing.
pub proof fn lemma_broadcast_exactly_once(
    members: Seq<SessionId>,
    text: Seq<char>,
    plan: Seq<Delivery>,
    id: SessionId,
)
    requires
        members.no_duplicates(),
        is_broadcast_plan(members, text, plan),
    ensures
        members.contains(id) ==> deliveries_to(plan, id) == 1,
        !members.contains(id) ==> deliveries_to(plan, id) == 0,
{
    lemma_occurrences_no_duplicates(members, id);
    lemma_deliveries_follow_members(members, text, plan, id);
}

} // verus!
