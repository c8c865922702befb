//! The connection registry: the count of subscriber sessions currently
//! streaming, and the accounting law that keeps it honest.

use vstd::prelude::*;

verus! {

/// What one session step asks of the connection registry.
#[derive(Clone, Copy, PartialEq, Eq, Structural, Debug)]
pub enum RegistryOp {
    /// A session finished its handshake and starts streaming: one more.
    Join,
    /// A streaming session saw a disconnect-class send failure: one fewer.
    Leave,
    /// Nothing changed.
    Stay,
}

/// The change one operation makes to the count.
pub open spec fn op_delta(op: RegistryOp) -> int {
    match op {
        RegistryOp::Join => 1,
        RegistryOp::Leave => -1,
        RegistryOp::Stay => 0,
    }
}

/// How many operations of a trace are `Join`.
pub open spec fn joins(t: Seq<RegistryOp>) -> nat
    decreases t.len(),
{
    if t.len() == 0 {
        0
    } else {
        joins(t.drop_last()) + (if t.last() == RegistryOp::Join {
            1nat
        } else {
            0nat
        })
    }
}

/// How many operations of a trace are `Leave`.
pub open spec fn leaves(t: Seq<RegistryOp>) -> nat
    decreases t.len(),
{
    if t.len() == 0 {
        0
    } else {
        leaves(t.drop_last()) + (if t.last() == RegistryOp::Leave {
            1nat
        } else {
            0nat
        })
    }
}

/// The count a trace of operations leaves behind, starting from zero.
pub open spec fn occupancy(t: Seq<RegistryOp>) -> int {
    joins(t) - leaves(t)
}

/// In the first `i` operations, no session has left that had not joined.
pub open spec fn prefix_balanced(t: Seq<RegistryOp>, i: int) -> bool {
    leaves(t.take(i)) <= joins(t.take(i))
}

/// Every leave has a matching earlier join: no prefix of the trace has more
/// leaves than joins. Interleavings of well-behaved sessions are orderly,
/// since each session leaves at most once and only after its own join.
pub open spec fn orderly(t: Seq<RegistryOp>) -> bool {
    forall|i: int| 0 <= i <= t.len() ==> #[trigger] prefix_balanced(t, i)
}

/// Counting `Join` and `Leave` over a prefix never exceeds the count over
/// the whole trace.
pub proof fn lemma_counts_grow_with_prefix(t: Seq<RegistryOp>, i: int)
    requires
        0 <= i <= t.len(),
    ensures
        joins(t.take(i)) <= joins(t),
        leaves(t.take(i)) <= leaves(t),
    decreases t.len(),
{
    if i == t.len() {
        assert(t.take(i) =~= t);
    } else {
        assert(t.drop_last().take(i) =~= t.take(i));
        lemma_counts_grow_with_prefix(t.drop_last(), i);
    }
}

/// Connection accounting: starting from zero, over any orderly trace in
/// which at most `n` sessions ever join — `n` concurrent connects followed
/// by their disconnects in arbitrary order — the count never goes negative,
/// never exceeds `n` at any point, and returns to zero once every join has
/// its matching leave.
pub proof fn lemma_connection_accounting(t: Seq<RegistryOp>, n: nat)
    requires
        orderly(t),
        joins(t) <= n,
    ensures
        forall|i: int| 0 <= i <= t.len() ==> 0 <= #[trigger] occupancy(t.take(i)) <= n,
        joins(t) == leaves(t) ==> occupancy(t) == 0,
{
    assert forall|i: int| 0 <= i <= t.len() implies 0 <= #[trigger] occupancy(t.take(i)) <= n by {
        assert(prefix_balanced(t, i));
        lemma_counts_grow_with_prefix(t, i);
    }
    assert(t.take(t.len() as int) =~= t);
}

/// Tracks the number of sessions currently streaming.
pub struct ConnectionRegistry {
    pub active: usize,
}

impl ConnectionRegistry {
    /// A fresh registry counts no session.
    pub fn new() -> (r: ConnectionRegistry)
        ensures
            r.active == 0,
    {
        ConnectionRegistry { active: 0 }
    }

    /// A session entered the streaming state: count it, exactly once.
    pub fn client_connected(&mut self)
        requires
            old(self).active < usize::MAX,
        ensures
            final(self).active == old(self).active + 1,
    {
        self.active = self.active + 1;
    }

    /// A streaming session departed: uncount it, exactly once.
    pub fn client_disconnected(&mut self)
        requires
            old(self).active > 0,
        ensures
            final(self).active == old(self).active - 1,
    {
        self.active = self.active - 1;
    }

    /// Apply what one session step asked for.
    pub fn apply(&mut self, op: RegistryOp)
        requires
            op == RegistryOp::Join ==> old(self).active < usize::MAX,
            op == RegistryOp::Leave ==> old(self).active > 0,
        ensures
            final(self).active == old(self).active + op_delta(op),
    {
        match op {
            RegistryOp::Join => self.client_connected(),
            RegistryOp::Leave => self.client_disconnected(),
            RegistryOp::Stay => {},
        }
    }

    /// The number of sessions currently streaming.
    pub fn active_count(&self) -> (r: usize)
        ensures
            r == self.active,
    {
        self.active
    }
}

} // verus!
