//! The browser-process handler: supplies the print handler the engine
//! queries for PDF page sizes.

use vstd::prelude::*;

use crate::print_handler;
use crate::print_handler::PrintHandler;
use crate::refcount::RefCount;

verus! {

/// The browser-process handler owning the print handler.
pub struct BrowserProcessHandler {
    /// The engine-mandated reference count.
    pub ref_count: RefCount,
    /// Answers the engine's PDF page-size query.
    pub print_handler: PrintHandler,
}

impl BrowserProcessHandler {
    /// Takes one more counted reference to this handler.
    pub fn inc_ref(&mut self)
        requires
            old(self).ref_count.count() >= 1,
            old(self).ref_count.count() < u64::MAX,
        ensures
            final(self).ref_count.count() == old(self).ref_count.count() + 1,
            final(self).print_handler == old(self).print_handler,
    {
        self.ref_count.add_ref();
    }

    /// Hands the engine a counted reference to the print handler: its
    /// count grows by one, mirroring the reference the engine will retain.
    pub fn get_print_handler(&mut self) -> (r: &mut PrintHandler)
        requires
            old(self).print_handler.ref_count.count() >= 1,
            old(self).print_handler.ref_count.count() < u64::MAX,
        ensures
            r.ref_count.count() == old(self).print_handler.ref_count.count() + 1,
            final(self).print_handler == *final(r),
            final(self).ref_count == old(self).ref_count,
    {
        self.print_handler.inc_ref();
        &mut self.print_handler
    }
}

/// A freshly allocated browser-process handler: one reference, a fresh
/// print handler.
pub fn allocate() -> (h: BrowserProcessHandler)
    ensures
        h.ref_count.count() == 1,
        h.print_handler.ref_count.count() == 1,
{
    BrowserProcessHandler { ref_count: RefCount::new(), print_handler: print_handler::allocate() }
}

} // verus!
