//! The browser-process print handler: answers the engine's page-size query
//! for PDF export with a fixed A4 sheet.

use vstd::prelude::*;

use crate::refcount::RefCount;

verus! {

/// A size in engine device units.
#[derive(Clone, Copy, PartialEq, Eq, Structural, Debug)]
pub struct PaperSize {
    pub width: i32,
    pub height: i32,
}

/// The width of an A4 sheet in tenths of a millimetre.
pub const A4_WIDTH_TENTH_MM: i32 = 2100;

/// The height of an A4 sheet in tenths of a millimetre.
pub const A4_HEIGHT_TENTH_MM: i32 = 2970;

/// Tenths of a millimetre per inch.
pub const TENTH_MM_PER_INCH: i32 = 254;

/// The browser-process handler answering print queries for PDF export.
pub struct PrintHandler {
    /// The engine-mandated reference count.
    pub ref_count: RefCount,
}

impl PrintHandler {
    /// Takes one more counted reference to this handler.
    pub fn inc_ref(&mut self)
        requires
            old(self).ref_count.count() >= 1,
            old(self).ref_count.count() < u64::MAX,
        ensures
            final(self).ref_count.count() == old(self).ref_count.count() + 1,
    {
        self.ref_count.add_ref();
    }

    /// The page size for PDF export: a fixed A4 sheet (210 mm by 297 mm)
    /// converted to device units at the supplied device-units-per-inch,
    /// rounded down. The bound on the input is a machine limit keeping the
    /// conversion within the engine's 32-bit size fields.
    pub fn get_pdf_paper_size(&self, device_units_per_inch: i32) -> (r: PaperSize)
        requires
            0 <= device_units_per_inch <= 100_000,
        ensures
            r.width == A4_WIDTH_TENTH_MM * device_units_per_inch / (TENTH_MM_PER_INCH as int),
            r.height == A4_HEIGHT_TENTH_MM * device_units_per_inch / (TENTH_MM_PER_INCH as int),
    {
        let width = A4_WIDTH_TENTH_MM * device_units_per_inch / TENTH_MM_PER_INCH;
        let height = A4_HEIGHT_TENTH_MM * device_units_per_inch / TENTH_MM_PER_INCH;
        PaperSize { width, height }
    }
}

/// A freshly allocated print handler with its allocator's single reference.
pub fn allocate() -> (h: PrintHandler)
    ensures
        h.ref_count.count() == 1,
{
    PrintHandler { ref_count: RefCount::new() }
}

} // verus!
