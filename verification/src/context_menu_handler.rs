//! The context-menu handler: clears the default menu model before it is
//! shown, so no browser context menu ever appears.

use vstd::prelude::*;

use crate::refcount::RefCount;

verus! {

/// The handler disabling the browser's default context menu.
pub struct ContextMenuHandler {
    /// The engine-mandated reference count.
    pub ref_count: RefCount,
}

impl ContextMenuHandler {
    /// Takes one more counted reference to this handler.
    pub fn inc_ref(&mut self)
        requires
            old(self).ref_count.count() >= 1,
            old(self).ref_count.count() < u64::MAX,
        ensures
            final(self).ref_count.count() == old(self).ref_count.count() + 1,
    {
        self.ref_count.add_ref();
    }

    /// Before the menu is built: clear every command from the model, so
    /// the menu shown is empty.
    pub fn on_before_context_menu(&self, model: &mut Vec<i32>)
        ensures
            final(model)@.len() == 0,
    {
        model.clear();
    }
}

/// A freshly allocated context-menu handler with its allocator's single
/// reference.
pub fn allocate() -> (h: ContextMenuHandler)
    ensures
        h.ref_count.count() == 1,
{
    ContextMenuHandler { ref_count: RefCount::new() }
}

} // verus!
