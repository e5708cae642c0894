//! The queue of pending interrupts of one CPU.

use vstd::prelude::*;

verus! {

/// How many interrupts can be pending at once.
pub const QUEUE_CAPACITY: usize = 50;

/// An interrupt waiting to be accepted.
#[derive(Debug, Clone, Copy, PartialEq, Eq, Structural)]
pub struct PendingInterrupt {
    pub vector: u8,
    pub level: u8,
}

/// Pending interrupts in order of level, the highest last. Among equal levels
/// the one sent last stands last.
#[derive(Debug, Clone)]
pub struct InterruptQueue {
    pub pending: Vec<PendingInterrupt>,
}

/// The queue invariant: ordered by level, no vector twice, within capacity.
pub open spec fn queue_wf(s: Seq<PendingInterrupt>) -> bool {
    &&& s.len() <= QUEUE_CAPACITY
    &&& forall|i: int, j: int| 0 <= i < j < s.len() ==> s[i].level <= s[j].level
    &&& forall|i: int, j: int| 0 <= i < j < s.len() ==> s[i].vector != s[j].vector
}

/// Whether an interrupt with this vector is pending.
pub open spec fn queue_has(s: Seq<PendingInterrupt>, vector: u8) -> bool {
    exists|i: int| 0 <= i < s.len() && #[trigger] s[i].vector == vector
}

/// The place of the first pending interrupt with this vector, or the length.
pub open spec fn queue_find(s: Seq<PendingInterrupt>, vector: u8) -> nat
    decreases s.len(),
{
    if s.len() == 0 {
        0
    } else if s[0].vector == vector {
        0
    } else {
        1 + queue_find(s.drop_first(), vector)
    }
}

/// The place at which an interrupt of this level is inserted: behind every
/// pending interrupt whose level is not higher.
pub open spec fn queue_slot(s: Seq<PendingInterrupt>, level: u8) -> nat
    decreases s.len(),
{
    if s.len() == 0 {
        0
    } else if s.last().level <= level {
        s.len()
    } else {
        queue_slot(s.drop_last(), level)
    }
}

/// The queue after `send`: unchanged if the vector is already pending or the
/// queue is full.
pub open spec fn queue_sent(
    s: Seq<PendingInterrupt>,
    vector: u8,
    level: u8,
) -> Seq<PendingInterrupt> {
    if queue_has(s, vector) || s.len() >= QUEUE_CAPACITY {
        s
    } else {
        s.insert(queue_slot(s, level) as int, PendingInterrupt { vector, level })
    }
}

/// The queue after `remove`.
pub open spec fn queue_removed(s: Seq<PendingInterrupt>, vector: u8) -> Seq<PendingInterrupt> {
    if queue_find(s, vector) < s.len() {
        s.remove(queue_find(s, vector) as int)
    } else {
        s
    }
}

/// The interrupt that is offered to the CPU first.
pub open spec fn queue_top(s: Seq<PendingInterrupt>) -> Option<PendingInterrupt> {
    if s.len() == 0 {
        None
    } else {
        Some(s.last())
    }
}

impl InterruptQueue {
    pub open spec fn wf(&self) -> bool {
        queue_wf(self.pending@)
    }

    /// An empty queue.
    pub fn new() -> (r: Self)
        ensures
            r.wf(),
            r.pending@.len() == 0,
    {
        Self { pending: Vec::with_capacity(QUEUE_CAPACITY) }
    }

    /// Queue an interrupt. A vector that is already pending keeps its level, and
    /// a full queue drops the newcomer.
    pub fn send(&mut self, vector: u8, level: u8)
        requires
            old(self).wf(),
        ensures
            final(self).wf(),
            final(self).pending@ == queue_sent(old(self).pending@, vector, level),
    {
        let n: usize = self.pending.len();
        let mut i: usize = 0;
        while i < n
            invariant
                i <= n,
                n == self.pending@.len(),
                self.pending@ == old(self).pending@,
                queue_wf(self.pending@),
                forall|k: int| 0 <= k < i ==> self.pending@[k].vector != vector,
            decreases n - i,
        {
            if self.pending[i].vector == vector {
                assert(queue_has(self.pending@, vector));
                return;
            }
            i += 1;
        }
        assert(!queue_has(self.pending@, vector));
        if n >= QUEUE_CAPACITY {
            return;
        }
        let mut at: usize = n;
        assert(self.pending@.take(n as int) =~= self.pending@);
        while at > 0 && self.pending[at - 1].level > level
            invariant
                at <= n,
                n == self.pending@.len(),
                self.pending@ == old(self).pending@,
                queue_slot(self.pending@, level) == queue_slot(
                    self.pending@.take(at as int),
                    level,
                ),
            decreases at,
        {
            assert(self.pending@.take(at as int).drop_last() =~= self.pending@.take(at - 1));
            at -= 1;
        }
        assert(queue_slot(self.pending@.take(at as int), level) == at) by {
            if at > 0 {
                assert(self.pending@.take(at as int).last() == self.pending@[at - 1]);
            }
        }
        self.pending.insert(at, PendingInterrupt { vector, level });
        proof {
            send_keeps_order(old(self).pending@, vector, level);
        }
    }

    /// Take a vector out of the queue, if it is pending.
    pub fn remove(&mut self, vector: u8)
        requires
            old(self).wf(),
        ensures
            final(self).wf(),
            final(self).pending@ == queue_removed(old(self).pending@, vector),
    {
        let n: usize = self.pending.len();
        let mut i: usize = 0;
        assert(self.pending@.skip(0) =~= self.pending@);
        while i < n
            invariant
                i <= n,
                n == self.pending@.len(),
                self.pending@ == old(self).pending@,
                old(self).wf(),
                queue_find(self.pending@, vector) == i + queue_find(
                    self.pending@.skip(i as int),
                    vector,
                ),
            decreases n - i,
        {
            assert(self.pending@.skip(i as int)[0] == self.pending@[i as int]);
            if self.pending[i].vector == vector {
                self.pending.remove(i);
                proof {
                    remove_keeps_order(old(self).pending@, vector);
                }
                return;
            }
            assert(self.pending@.skip(i as int).drop_first() =~= self.pending@.skip(i + 1));
            i += 1;
        }
    }

    /// The pending interrupt of the highest level.
    pub fn peek(&self) -> (r: Option<PendingInterrupt>)
        ensures
            r == queue_top(self.pending@),
    {
        if self.pending.len() == 0 {
            None
        } else {
            Some(self.pending[self.pending.len() - 1])
        }
    }
}

impl Default for InterruptQueue {
    fn default() -> (r: Self)
        ensures
            r.wf(),
            r.pending@.len() == 0,
    {
        Self::new()
    }
}

proof fn slot_bound(s: Seq<PendingInterrupt>, level: u8)
    ensures
        queue_slot(s, level) <= s.len(),
    decreases s.len(),
{
    if s.len() > 0 && s.last().level > level {
        slot_bound(s.drop_last(), level);
    }
}

/// The insertion place separates the levels that are not higher from those that
/// are.
proof fn slot_splits(s: Seq<PendingInterrupt>, level: u8)
    requires
        queue_wf(s),
    ensures
        queue_slot(s, level) <= s.len(),
        forall|k: int| 0 <= k < queue_slot(s, level) ==> s[k].level <= level,
        forall|k: int| queue_slot(s, level) <= k < s.len() ==> level < s[k].level,
    decreases s.len(),
{
    if s.len() > 0 && s.last().level > level {
        let t = s.drop_last();
        assert(queue_wf(t)) by {
            assert forall|i: int, j: int| 0 <= i < j < t.len() implies t[i].level <= t[j].level
                && t[i].vector != t[j].vector by {
                assert(t[i] == s[i] && t[j] == s[j]);
            }
        }
        slot_splits(t, level);
        assert forall|k: int| queue_slot(s, level) <= k < s.len() implies level
            < s[k].level by {
            if k < t.len() {
                assert(t[k] == s[k]);
            }
        }
        assert forall|k: int| 0 <= k < queue_slot(s, level) implies s[k].level <= level by {
            assert(t[k] == s[k]);
        }
    } else if s.len() > 0 {
        assert forall|k: int| 0 <= k < s.len() implies s[k].level <= level by {
            if k < s.len() - 1 {
                assert(s[k].level <= s[s.len() - 1].level);
            }
        }
    }
}

/// The queue invariant holds after every `send`.
pub proof fn send_keeps_order(s: Seq<PendingInterrupt>, vector: u8, level: u8)
    requires
        queue_wf(s),
    ensures
        queue_wf(queue_sent(s, vector, level)),
{
    slot_splits(s, level);
    let t = queue_sent(s, vector, level);
    let at = queue_slot(s, level) as int;
    if !queue_has(s, vector) && s.len() < QUEUE_CAPACITY {
        assert forall|i: int, j: int| 0 <= i < j < t.len() implies t[i].level <= t[j].level
            && t[i].vector != t[j].vector by {
            let a = if i < at { s[i] } else if i == at { t[i] } else { s[i - 1] };
            let b = if j < at { s[j] } else if j == at { t[j] } else { s[j - 1] };
            assert(a == t[i] && b == t[j]);
            if i < at && j == at {
                assert(s[i].vector != vector);
            } else if i == at && j > at {
                assert(s[j - 1].vector != vector);
            }
        }
    }
}

/// The queue invariant holds after every `remove`.
pub proof fn remove_keeps_order(s: Seq<PendingInterrupt>, vector: u8)
    requires
        queue_wf(s),
    ensures
        queue_wf(queue_removed(s, vector)),
{
    find_locates(s, vector);
    let t = queue_removed(s, vector);
    let p = queue_find(s, vector) as int;
    if p < s.len() {
        assert forall|i: int, j: int| 0 <= i < j < t.len() implies t[i].level <= t[j].level
            && t[i].vector != t[j].vector by {
            let a = if i < p { s[i] } else { s[i + 1] };
            let b = if j < p { s[j] } else { s[j + 1] };
            assert(a == t[i] && b == t[j]);
        }
    }
}

proof fn find_locates(s: Seq<PendingInterrupt>, vector: u8)
    ensures
        queue_find(s, vector) <= s.len(),
        queue_find(s, vector) < s.len() <==> queue_has(s, vector),
        queue_find(s, vector) < s.len() ==> s[queue_find(s, vector) as int].vector == vector,
    decreases s.len(),
{
    if s.len() > 0 && s[0].vector != vector {
        let t = s.drop_first();
        find_locates(t, vector);
        if queue_has(s, vector) {
            let i = choose|i: int| 0 <= i < s.len() && #[trigger] s[i].vector == vector;
            assert(t[i - 1].vector == vector);
        }
        if queue_has(t, vector) {
            let i = choose|i: int| 0 <= i < t.len() && #[trigger] t[i].vector == vector;
            assert(s[i + 1].vector == vector);
        }
    } else if s.len() > 0 {
        assert(s[0].vector == vector);
    }
}

/// Sending the same vector again changes nothing, whatever its level.
pub proof fn send_is_idempotent(s: Seq<PendingInterrupt>, vector: u8, level: u8, again: u8)
    requires
        s.len() < QUEUE_CAPACITY,
    ensures
        queue_sent(queue_sent(s, vector, level), vector, again) == queue_sent(s, vector, level),
{
    slot_bound(s, level);
    if !queue_has(s, vector) {
        let t = queue_sent(s, vector, level);
        assert(t[queue_slot(s, level) as int].vector == vector);
    }
}

/// A vector that was sent into a queue with room is pending afterwards.
pub proof fn sent_is_pending(s: Seq<PendingInterrupt>, vector: u8, level: u8)
    requires
        s.len() < QUEUE_CAPACITY,
    ensures
        queue_has(queue_sent(s, vector, level), vector),
{
    slot_bound(s, level);
    if !queue_has(s, vector) {
        let t = queue_sent(s, vector, level);
        assert(t[queue_slot(s, level) as int].vector == vector);
    }
}

/// After `remove` the vector is no longer pending.
pub proof fn removed_is_gone(s: Seq<PendingInterrupt>, vector: u8)
    requires
        queue_wf(s),
    ensures
        !queue_has(queue_removed(s, vector), vector),
{
    find_locates(s, vector);
    let t = queue_removed(s, vector);
    let p = queue_find(s, vector) as int;
    if queue_has(t, vector) {
        let i = choose|i: int| 0 <= i < t.len() && #[trigger] t[i].vector == vector;
        if p < s.len() {
            if i < p {
                assert(s[i].vector != s[p].vector);
            } else {
                assert(t[i] == s[i + 1]);
                assert(s[p].vector != s[i + 1].vector);
            }
        } else {
            assert(s[i].vector == vector);
        }
    }
}

/// The interrupt that is offered first has the highest level of all.
pub proof fn top_has_highest_level(s: Seq<PendingInterrupt>)
    requires
        queue_wf(s),
        s.len() > 0,
    ensures
        forall|i: int| 0 <= i < s.len() ==> s[i].level <= queue_top(s).unwrap().level,
{
}

} // verus!
