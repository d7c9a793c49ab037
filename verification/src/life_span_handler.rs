//! The lifecycle handler: tracks the set of open browser instances and
//! signals the host message loop to terminate when the last one closes.
//!
//! Instances are identified by the engine's own identity comparison,
//! carried here as plain handles. Creation adds to the set; a close request
//! on the last instance marks the closing flag; closing removes by
//! identity, and the quit signal fires exactly when the set becomes empty.

use vstd::prelude::*;

use crate::refcount::RefCount;

verus! {

/// The list after removing the first occurrence of an instance, if any.
pub open spec fn spec_remove_first(s: Seq<u64>, b: u64) -> Seq<u64>
    decreases s.len(),
{
    if s.len() == 0 {
        s
    } else if s[0] == b {
        s.drop_first()
    } else {
        seq![s[0]] + spec_remove_first(s.drop_first(), b)
    }
}

/// Removing at the position of the first occurrence is what
/// [`spec_remove_first`] computes.
proof fn lemma_remove_first_at(s: Seq<u64>, b: u64, i: int)
    requires
        0 <= i < s.len(),
        s[i] == b,
        forall|k: int| 0 <= k < i ==> s[k] != b,
    ensures
        spec_remove_first(s, b) == s.remove(i),
    decreases i,
{
    if i == 0 {
        assert(s.remove(0) =~= s.drop_first());
    } else {
        lemma_remove_first_at(s.drop_first(), b, i - 1);
        assert(seq![s[0]] + s.drop_first().remove(i - 1) =~= s.remove(i));
    }
}

/// A list without the instance is left unchanged by [`spec_remove_first`].
proof fn lemma_remove_first_absent(s: Seq<u64>, b: u64)
    requires
        forall|k: int| 0 <= k < s.len() ==> s[k] != b,
    ensures
        spec_remove_first(s, b) == s,
    decreases s.len(),
{
    if s.len() > 0 {
        lemma_remove_first_absent(s.drop_first(), b);
        assert(seq![s[0]] + s.drop_first() =~= s);
    }
}

/// The handler tracking which browser instances are open.
pub struct LifeSpanHandler {
    /// The engine-mandated reference count.
    pub ref_count: RefCount,
    /// The currently open instances, in creation order.
    pub browser_list: Vec<u64>,
    /// Set once a close of the last remaining instance has been requested.
    pub is_closing: bool,
}

impl LifeSpanHandler {
    /// Takes one more counted reference to this handler.
    pub fn inc_ref(&mut self)
        requires
            old(self).ref_count.count() >= 1,
            old(self).ref_count.count() < u64::MAX,
        ensures
            final(self).ref_count.count() == old(self).ref_count.count() + 1,
            final(self).browser_list == old(self).browser_list,
            final(self).is_closing == old(self).is_closing,
    {
        self.ref_count.add_ref();
    }

    /// A new browser instance exists: add it to the set.
    pub fn on_after_created(&mut self, browser: u64)
        ensures
            final(self).browser_list@ == old(self).browser_list@.push(browser),
            final(self).is_closing == old(self).is_closing,
            final(self).ref_count == old(self).ref_count,
    {
        self.browser_list.push(browser);
    }

    /// A close was requested: when this is the last instance, mark the
    /// closing flag. Returning false lets the engine proceed with the
    /// close.
    pub fn do_close(&mut self, browser: u64) -> (r: bool)
        ensures
            final(self).is_closing == (old(self).is_closing || old(self).browser_list@.len()
                == 1),
            final(self).browser_list == old(self).browser_list,
            final(self).ref_count == old(self).ref_count,
            r == false,
    {
        if self.browser_list.len() == 1 {
            self.is_closing = true;
        }
        false
    }

    /// An instance has closed: remove it from the set by identity. The
    /// quit signal fires exactly when the set becomes empty — and only
    /// then.
    pub fn on_before_close(&mut self, browser: u64) -> (quit: bool)
        ensures
            final(self).browser_list@ == spec_remove_first(old(self).browser_list@, browser),
            quit <==> final(self).browser_list@.len() == 0,
            final(self).is_closing == old(self).is_closing,
            final(self).ref_count == old(self).ref_count,
    {
        let ghost start = self.browser_list@;
        let n = self.browser_list.len();
        let mut i: usize = 0;
        let mut found: Option<usize> = None;
        while i < n
            invariant
                n == self.browser_list@.len(),
                i <= n,
                self.browser_list@ == start,
                match found {
                    Some(j) => j < i && start[j as int] == browser && (forall|k: int|
                        0 <= k < j ==> start[k] != browser),
                    None => forall|k: int| 0 <= k < i ==> start[k] != browser,
                },
            decreases n - i,
        {
            if found.is_none() && self.browser_list[i] == browser {
                found = Some(i);
            }
            i = i + 1;
        }
        match found {
            Some(j) => {
                self.browser_list.remove(j);
                proof {
                    lemma_remove_first_at(start, browser, j as int);
                }
            },
            None => {
                proof {
                    lemma_remove_first_absent(start, browser);
                }
            },
        }
        self.browser_list.len() == 0
    }
}

/// A freshly allocated lifecycle handler: one reference, no instances, not
/// closing.
pub fn allocate() -> (h: LifeSpanHandler)
    ensures
        h.ref_count.count() == 1,
        h.browser_list@.len() == 0,
        !h.is_closing,
{
    LifeSpanHandler { ref_count: RefCount::new(), browser_list: Vec::new(), is_closing: false }
}

} // verus!
