//! The reference-counting lifetime protocol required of every handler object
//! handed to the engine.
//!
//! Each object starts with one implicit reference held by its allocator.
//! Every consumer that retains a pointer must pair an `add_ref` with exactly
//! one `release`; when the count reaches zero the object is destroyed, exactly
//! once. `RefCount` is the counter every handler embeds, and the trace-level
//! definitions below state the protocol itself: in any history in which each
//! operation happens while the object is still alive, the destructor runs at
//! most once.

use vstd::prelude::*;

verus! {

/// The counter at the head of every engine-visible handler object.
///
/// A count of zero means the object has been destroyed; no further operation
/// may be applied to it, which the `requires` clauses enforce.
pub struct RefCount {
    count: u64,
}

impl RefCount {
    /// The number of outstanding references; zero once destroyed.
    pub closed spec fn count(&self) -> u64 {
        self.count
    }

    /// A freshly allocated object carries its allocator's single reference.
    pub fn new() -> (r: RefCount)
        ensures
            r.count() == 1,
    {
        RefCount { count: 1 }
    }

    /// Taking one more counted reference to a live object.
    pub fn add_ref(&mut self)
        requires
            old(self).count() >= 1,
            old(self).count() < u64::MAX,
        ensures
            final(self).count() == old(self).count() + 1,
    {
        self.count = self.count + 1;
    }

    /// Dropping one counted reference; reports whether this was the last one,
    /// in which case the owner must destroy the object.
    pub fn release(&mut self) -> (destroyed: bool)
        requires
            old(self).count() >= 1,
        ensures
            final(self).count() == old(self).count() - 1,
            destroyed <==> final(self).count() == 0,
    {
        self.count = self.count - 1;
        self.count == 0
    }

    /// The engine's diagnostic query: exactly one reference outstanding.
    pub fn has_one_ref(&self) -> (r: bool)
        ensures
            r <==> self.count() == 1,
    {
        self.count == 1
    }

    /// The engine's diagnostic query: the object is still alive.
    pub fn has_at_least_one_ref(&self) -> (r: bool)
        ensures
            r <==> self.count() >= 1,
    {
        self.count >= 1
    }
}

/// One step of the protocol, as the engine may issue it from any thread.
#[derive(Clone, Copy, PartialEq, Eq, Structural)]
pub enum RefOp {
    AddRef,
    Release,
}

/// The count after a fresh object (count 1) has seen the given operations,
/// in order. Interleavings of several threads are exactly the possible orders.
pub open spec fn count_after(ops: Seq<RefOp>) -> int
    decreases ops.len(),
{
    if ops.len() == 0 {
        1
    } else {
        count_after(ops.drop_last()) + (if ops.last() is AddRef {
            1int
        } else {
            -1int
        })
    }
}

/// A history obeys the protocol when every operation is applied while the
/// object is still alive: the count before each step is at least one. This is
/// the engine's own contract — a release beyond the matching add_refs (plus
/// the initial reference) would act on freed memory.
pub open spec fn valid_trace(ops: Seq<RefOp>) -> bool {
    forall|i: int| 0 <= i < ops.len() ==> count_after(#[trigger] ops.take(i)) >= 1
}

/// The destructor runs at step `i` exactly when that step is the release that
/// brings the count to zero.
pub open spec fn destroys_at(ops: Seq<RefOp>, i: int) -> bool {
    &&& 0 <= i < ops.len()
    &&& ops[i] is Release
    &&& count_after(ops.take(i + 1)) == 0
}

/// In any protocol-obeying interleaving the destructor never runs twice: once
/// some step has brought the count to zero, no later step can be applied at
/// all, let alone destroy again.
pub proof fn lemma_no_double_destroy(ops: Seq<RefOp>, i: int, j: int)
    requires
        valid_trace(ops),
        0 <= i < j < ops.len(),
        destroys_at(ops, i),
    ensures
        !destroys_at(ops, j),
{
    assert(count_after(ops.take(i + 1)) == 0);
    assert(count_after(ops.take(i + 1)) >= 1);
}

/// The canonical balanced history: `n` add_refs followed by `n + 1` releases,
/// the extra release paying off the allocator's initial reference.
pub open spec fn balanced_trace(n: nat) -> Seq<RefOp> {
    Seq::new(n, |i: int| RefOp::AddRef) + Seq::new(n + 1, |i: int| RefOp::Release)
}

/// The count at each point of the balanced history: it climbs to `n + 1`,
/// then falls by one per release.
pub proof fn lemma_balanced_trace_counts(n: nat, k: int)
    requires
        0 <= k <= 2 * n + 1,
    ensures
        count_after(balanced_trace(n).take(k)) == if k <= n {
            1 + k
        } else {
            1 + 2 * (n as int) - k
        },
    decreases k,
{
    let ops = balanced_trace(n);
    if k == 0 {
        assert(ops.take(0) =~= Seq::<RefOp>::empty());
    } else {
        lemma_balanced_trace_counts(n, k - 1);
        assert(ops.take(k).drop_last() =~= ops.take(k - 1));
        assert(ops.take(k).last() == ops[k - 1]);
        if k - 1 < n {
            assert(ops[k - 1] == RefOp::AddRef);
        } else {
            assert(ops[k - 1] == RefOp::Release);
        }
    }
}

/// The reference-counting law: for any `n`, a history of `n` add_refs and
/// `n + 1` releases obeys the protocol, destroys the object at its final
/// release, and at no earlier step.
pub proof fn lemma_balanced_trace_destroys_once(n: nat)
    ensures
        valid_trace(balanced_trace(n)),
        destroys_at(balanced_trace(n), 2 * (n as int)),
        forall|i: int| 0 <= i < 2 * n ==> !destroys_at(balanced_trace(n), i),
{
    let ops = balanced_trace(n);
    assert forall|i: int| 0 <= i < ops.len() implies count_after(#[trigger] ops.take(i)) >= 1 by {
        lemma_balanced_trace_counts(n, i);
    }
    lemma_balanced_trace_counts(n, 2 * (n as int) + 1);
    assert(ops[2 * (n as int)] == RefOp::Release);
    assert forall|i: int| 0 <= i < 2 * n implies !destroys_at(ops, i) by {
        lemma_balanced_trace_counts(n, i + 1);
    }
}

} // verus!
