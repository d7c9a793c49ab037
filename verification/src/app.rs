//! The application-level callback aggregate handed to the engine at
//! initialization: it owns the browser-process and page-content-process
//! handlers and amends the engine's command line.

use vstd::prelude::*;

use crate::browser_process_handler;
use crate::browser_process_handler::BrowserProcessHandler;
use crate::refcount::RefCount;
use crate::render_process_handler;
use crate::render_process_handler::RenderProcessHandler;

verus! {

/// The application callback aggregate.
pub struct App {
    /// The engine-mandated reference count.
    pub ref_count: RefCount,
    /// The browser-process handler.
    pub browser_process_handler: BrowserProcessHandler,
    /// The page-content-process handler.
    pub render_process_handler: RenderProcessHandler,
}

/// Before the engine processes its command line: append the switch that
/// keeps the on-screen keyboard working.
pub fn on_before_command_line_processing(command_line: &mut Vec<String>)
    ensures
        final(command_line)@.len() == old(command_line)@.len() + 1,
        forall|i: int|
            0 <= i < old(command_line)@.len() ==> final(command_line)@[i] == old(command_line)@[i],
        final(command_line)@.last()@ == "disable-usb-keyboard-detect"@,
{
    command_line.push("disable-usb-keyboard-detect".to_owned());
}

impl App {
    /// Takes one more counted reference to this aggregate.
    pub fn inc_ref(&mut self)
        requires
            old(self).ref_count.count() >= 1,
            old(self).ref_count.count() < u64::MAX,
        ensures
            final(self).ref_count.count() == old(self).ref_count.count() + 1,
            final(self).browser_process_handler == old(self).browser_process_handler,
            final(self).render_process_handler == old(self).render_process_handler,
    {
        self.ref_count.add_ref();
    }

    /// Hands the engine a counted reference to the browser-process
    /// handler: its count grows by one, mirroring the reference the engine
    /// will retain.
    pub fn get_browser_process_handler(&mut self) -> (r: &mut BrowserProcessHandler)
        requires
            old(self).browser_process_handler.ref_count.count() >= 1,
            old(self).browser_process_handler.ref_count.count() < u64::MAX,
        ensures
            r.ref_count.count() == old(self).browser_process_handler.ref_count.count() + 1,
            r.print_handler == old(self).browser_process_handler.print_handler,
            final(self).browser_process_handler == *final(r),
            final(self).ref_count == old(self).ref_count,
            final(self).render_process_handler == old(self).render_process_handler,
    {
        self.browser_process_handler.inc_ref();
        &mut self.browser_process_handler
    }

    /// Hands the engine a counted reference to the page-content-process
    /// handler.
    pub fn get_render_process_handler(&mut self) -> (r: &mut RenderProcessHandler)
        requires
            old(self).render_process_handler.ref_count.count() >= 1,
            old(self).render_process_handler.ref_count.count() < u64::MAX,
        ensures
            r.ref_count.count() == old(self).render_process_handler.ref_count.count() + 1,
            r.pdf_print_extension == old(self).render_process_handler.pdf_print_extension,
            r.file_dialog_extension == old(self).render_process_handler.file_dialog_extension,
            final(self).render_process_handler == *final(r),
            final(self).ref_count == old(self).ref_count,
            final(self).browser_process_handler == old(self).browser_process_handler,
    {
        self.render_process_handler.inc_ref();
        &mut self.render_process_handler
    }
}

/// A freshly allocated application aggregate: one reference on it and on
/// each process handler.
pub fn allocate() -> (a: App)
    ensures
        a.ref_count.count() == 1,
        a.browser_process_handler.ref_count.count() == 1,
        a.render_process_handler.ref_count.count() == 1,
{
    App {
        ref_count: RefCount::new(),
        browser_process_handler: browser_process_handler::allocate(),
        render_process_handler: render_process_handler::allocate(),
    }
}

} // verus!
