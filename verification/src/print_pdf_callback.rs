//! The browser-process callback the engine invokes when an asynchronous
//! PDF export finishes: it forwards the outcome to the completion listener
//! registered with the request, when one was.

use vstd::prelude::*;

use crate::refcount::RefCount;

verus! {

/// The completion callback handed to the engine's print-to-PDF primitive.
pub struct PDFPrintCallback {
    /// The engine-mandated reference count.
    pub ref_count: RefCount,
    /// Whether a completion listener was registered with the request.
    pub has_on_done: bool,
}

impl PDFPrintCallback {
    /// The engine reports the export finished: the outcome is delivered to
    /// the listener exactly when one was registered.
    pub fn on_pdf_print_finished(&self, ok: bool) -> (r: Option<bool>)
        ensures
            r == (if self.has_on_done {
                Some(ok)
            } else {
                None::<bool>
            }),
    {
        if self.has_on_done {
            Some(ok)
        } else {
            None
        }
    }
}

/// A freshly allocated callback with its allocator's single reference.
pub fn allocate(has_on_done: bool) -> (c: PDFPrintCallback)
    ensures
        c.ref_count.count() == 1,
        c.has_on_done == has_on_done,
{
    PDFPrintCallback { ref_count: RefCount::new(), has_on_done }
}

} // verus!
