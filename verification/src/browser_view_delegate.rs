//! The browser-view delegate: a callback table with every slot left to the
//! engine's defaults; only the reference-count header carries behavior.

use vstd::prelude::*;

use crate::refcount::RefCount;

verus! {

/// The delegate for the embedded browser view.
pub struct BrowserViewDelegate {
    /// The engine-mandated reference count.
    pub ref_count: RefCount,
}

impl BrowserViewDelegate {
    /// Takes one more counted reference to this delegate.
    pub fn inc_ref(&mut self)
        requires
            old(self).ref_count.count() >= 1,
            old(self).ref_count.count() < u64::MAX,
        ensures
            final(self).ref_count.count() == old(self).ref_count.count() + 1,
    {
        self.ref_count.add_ref();
    }
}

/// A freshly allocated browser-view delegate with its allocator's single
/// reference.
pub fn allocate() -> (d: BrowserViewDelegate)
    ensures
        d.ref_count.count() == 1,
{
    BrowserViewDelegate { ref_count: RefCount::new() }
}

} // verus!
