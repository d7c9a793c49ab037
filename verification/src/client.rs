//! The client aggregate: the per-window bundle of capability handlers the
//! engine calls back into, and the browser-process side of the RPC bridges.
//!
//! A message from the page-content process is dispatched by name:
//! `print_to_pdf` starts a PDF export to the path it carries, and
//! `open_file_dialog` / `save_file_dialog` start a native dialog with the
//! title, default file name and filter it carries — absent or null text
//! arguments are read as empty strings, the explicit null policy. Any
//! other message is not handled.

use vstd::prelude::*;

use crate::browser::{
    print_to_pdf, run_file_dialog, spec_pdf_print_settings, FileDialogRequest, PdfPrintRequest,
};
use crate::context_menu_handler;
use crate::context_menu_handler::ContextMenuHandler;
use crate::display_handler;
use crate::display_handler::DisplayHandler;
use crate::life_span_handler;
use crate::life_span_handler::LifeSpanHandler;
use crate::message::{arg_text_or_empty, ArgModel, ProcessMessage};
use crate::refcount::RefCount;
use crate::request_handler;
use crate::request_handler::RequestHandler;
use crate::v8_file_dialog_handler::FileDialogMode;

verus! {

/// What a message from the page-content process asks the browser process
/// to do.
pub enum BrowserAction {
    /// Start a PDF export of the current page.
    PdfPrint(PdfPrintRequest),
    /// Open a native file dialog.
    FileDialog(FileDialogRequest),
    /// The message was not recognized, or carried no usable path.
    NotHandled,
}

/// The per-window client bundling the capability handlers.
pub struct Client {
    /// The engine-mandated reference count.
    pub ref_count: RefCount,
    /// Tracks open browser instances and the quit signal.
    pub life_span_handler: LifeSpanHandler,
    /// Disables the default context menu.
    pub context_menu_handler: ContextMenuHandler,
    /// Applies the certificate-pinning exception.
    pub request_handler: RequestHandler,
    /// Forwards console lines and fullscreen changes.
    pub display_handler: DisplayHandler,
}

impl Client {
    /// Takes one more counted reference to this client.
    pub fn inc_ref(&mut self)
        requires
            old(self).ref_count.count() >= 1,
            old(self).ref_count.count() < u64::MAX,
        ensures
            final(self).ref_count.count() == old(self).ref_count.count() + 1,
            final(self).life_span_handler == old(self).life_span_handler,
            final(self).context_menu_handler == old(self).context_menu_handler,
            final(self).request_handler == old(self).request_handler,
            final(self).display_handler == old(self).display_handler,
    {
        self.ref_count.add_ref();
    }

    /// Hands the engine a counted reference to the lifecycle handler: the
    /// handler's count grows by one, mirroring the reference the engine
    /// will retain.
    pub fn get_life_span_handler(&mut self) -> (r: &mut LifeSpanHandler)
        requires
            old(self).life_span_handler.ref_count.count() >= 1,
            old(self).life_span_handler.ref_count.count() < u64::MAX,
        ensures
            r.ref_count.count() == old(self).life_span_handler.ref_count.count() + 1,
            r.browser_list == old(self).life_span_handler.browser_list,
            r.is_closing == old(self).life_span_handler.is_closing,
            final(self).life_span_handler == *final(r),
            final(self).ref_count == old(self).ref_count,
            final(self).context_menu_handler == old(self).context_menu_handler,
            final(self).request_handler == old(self).request_handler,
            final(self).display_handler == old(self).display_handler,
    {
        self.life_span_handler.inc_ref();
        &mut self.life_span_handler
    }

    /// Hands the engine a counted reference to the context-menu handler.
    pub fn get_context_menu_handler(&mut self) -> (r: &mut ContextMenuHandler)
        requires
            old(self).context_menu_handler.ref_count.count() >= 1,
            old(self).context_menu_handler.ref_count.count() < u64::MAX,
        ensures
            r.ref_count.count() == old(self).context_menu_handler.ref_count.count() + 1,
            final(self).context_menu_handler == *final(r),
            final(self).ref_count == old(self).ref_count,
            final(self).life_span_handler == old(self).life_span_handler,
            final(self).request_handler == old(self).request_handler,
            final(self).display_handler == old(self).display_handler,
    {
        self.context_menu_handler.inc_ref();
        &mut self.context_menu_handler
    }

    /// Hands the engine a counted reference to the request handler.
    pub fn get_request_handler(&mut self) -> (r: &mut RequestHandler)
        requires
            old(self).request_handler.ref_count.count() >= 1,
            old(self).request_handler.ref_count.count() < u64::MAX,
        ensures
            r.ref_count.count() == old(self).request_handler.ref_count.count() + 1,
            final(self).request_handler == *final(r),
            final(self).ref_count == old(self).ref_count,
            final(self).life_span_handler == old(self).life_span_handler,
            final(self).context_menu_handler == old(self).context_menu_handler,
            final(self).display_handler == old(self).display_handler,
    {
        self.request_handler.inc_ref();
        &mut self.request_handler
    }

    /// Hands the engine a counted reference to the display handler.
    pub fn get_display_handler(&mut self) -> (r: &mut DisplayHandler)
        requires
            old(self).display_handler.ref_count.count() >= 1,
            old(self).display_handler.ref_count.count() < u64::MAX,
        ensures
            r.ref_count.count() == old(self).display_handler.ref_count.count() + 1,
            r.window == old(self).display_handler.window,
            final(self).display_handler == *final(r),
            final(self).ref_count == old(self).ref_count,
            final(self).life_span_handler == old(self).life_span_handler,
            final(self).context_menu_handler == old(self).context_menu_handler,
            final(self).request_handler == old(self).request_handler,
    {
        self.display_handler.inc_ref();
        &mut self.display_handler
    }

    /// Dispatches a message received from the page-content process to the
    /// browser-side operation it names.
    pub fn on_process_message_received(&self, message: &ProcessMessage) -> (r: BrowserAction)
        ensures
            ({
                let m = message@;
                &&& (m.name == "print_to_pdf"@ && m.args.len() > 0 && m.args[0] is Text) ==> (
                r matches BrowserAction::PdfPrint(q) && q.path@ == m.args[0]->Text_0 && q.settings
                    == spec_pdf_print_settings())
                &&& (m.name == "print_to_pdf"@ && !(m.args.len() > 0 && m.args[0] is Text))
                    ==> r is NotHandled
                &&& (m.name == "open_file_dialog"@ || m.name == "save_file_dialog"@) ==> (
                r matches BrowserAction::FileDialog(d) && d.mode == (if m.name
                    == "open_file_dialog"@ {
                    FileDialogMode::Open
                } else {
                    FileDialogMode::Save
                }) && d.title@ == arg_text_or_empty(m.args, 0) && d.initial_file_name@
                    == arg_text_or_empty(m.args, 1) && d.accept_filters@.len() == 1
                    && d.accept_filters@[0]@ == arg_text_or_empty(m.args, 2))
                &&& (m.name != "print_to_pdf"@ && m.name != "open_file_dialog"@ && m.name
                    != "save_file_dialog"@) ==> r is NotHandled
            }),
    {
        proof {
            reveal_strlit("print_to_pdf");
            reveal_strlit("open_file_dialog");
            reveal_strlit("save_file_dialog");
            assert("print_to_pdf"@.len() == 12);
            assert("open_file_dialog"@[0] == 'o');
            assert("save_file_dialog"@[0] == 's');
            assert("open_file_dialog"@.len() == 16);
            assert("save_file_dialog"@.len() == 16);
        }
        let name = message.name();
        if *name == "print_to_pdf".to_owned() {
            match message.get_string(0) {
                Some(path) => BrowserAction::PdfPrint(print_to_pdf(path)),
                None => BrowserAction::NotHandled,
            }
        } else {
            let is_open = *name == "open_file_dialog".to_owned();
            let is_save = *name == "save_file_dialog".to_owned();
            if is_open || is_save {
                let title = message.get_string_or_empty(0);
                let initial_file_name = message.get_string_or_empty(1);
                let filter = message.get_string_or_empty(2);
                let mode = if is_open {
                    FileDialogMode::Open
                } else {
                    FileDialogMode::Save
                };
                BrowserAction::FileDialog(run_file_dialog(mode, title, initial_file_name, filter))
            } else {
                BrowserAction::NotHandled
            }
        }
    }
}

/// The reply the browser process sends back when a PDF export finishes:
/// `print_to_pdf_done` carrying the outcome.
pub fn build_pdf_reply(ok: bool) -> (m: ProcessMessage)
    ensures
        m@.name == "print_to_pdf_done"@,
        m@.args == seq![ArgModel::Flag(ok)],
{
    let mut m = ProcessMessage::create("print_to_pdf_done".to_owned());
    m.set_size(1);
    m.set_bool(0, ok);
    proof {
        assert(m@.args =~= seq![ArgModel::Flag(ok)]);
    }
    m
}

/// The reply the browser process sends back when a file dialog closes:
/// `run_file_dialog_done` carrying the selected path, or no arguments at
/// all when the user cancelled.
pub fn build_dialog_reply(path: Option<String>) -> (m: ProcessMessage)
    ensures
        m@.name == "run_file_dialog_done"@,
        m@.args == (match path {
            Some(p) => seq![ArgModel::Text(p@)],
            None => Seq::<ArgModel>::empty(),
        }),
{
    let mut m = ProcessMessage::create("run_file_dialog_done".to_owned());
    match path {
        Some(p) => {
            m.set_size(1);
            m.set_string(0, p);
            proof {
                assert(m@.args.len() == 1);
            }
        },
        None => {
            m.set_size(0);
        },
    }
    proof {
        assert(m@.args =~= (match path {
            Some(p) => seq![ArgModel::Text(p@)],
            None => Seq::<ArgModel>::empty(),
        }));
    }
    m
}

/// A freshly allocated client for the given window: one reference on the
/// client and on each of its handlers, the lifecycle tracker empty, the
/// display handler bound to the window.
pub fn allocate(window: u64) -> (c: Client)
    ensures
        c.ref_count.count() == 1,
        c.life_span_handler.ref_count.count() == 1,
        c.life_span_handler.browser_list@.len() == 0,
        !c.life_span_handler.is_closing,
        c.context_menu_handler.ref_count.count() == 1,
        c.request_handler.ref_count.count() == 1,
        c.display_handler.ref_count.count() == 1,
        c.display_handler.window == window,
{
    Client {
        ref_count: RefCount::new(),
        life_span_handler: life_span_handler::allocate(),
        context_menu_handler: context_menu_handler::allocate(),
        request_handler: request_handler::allocate(),
        display_handler: display_handler::allocate(window),
    }
}

} // verus!
