//! The page-content-process handler: registers the two script extensions
//! when the web environment initializes, binds them to the browser that is
//! created, and routes reply messages from the browser process to the
//! bridge that is waiting for them.

use vstd::prelude::*;

use crate::message::ProcessMessage;
use crate::refcount::RefCount;
use crate::scripting::{CallbackInvocation, ExtensionRegistration};
use crate::v8_file_dialog_handler;
use crate::v8_file_dialog_handler::{
    spec_dialog_process_message, DialogHandlerModel, V8FileDialogHandler,
};
use crate::v8_pdf_print_handler;
use crate::v8_pdf_print_handler::{spec_pdf_process_message, PdfHandlerModel, V8PDFPrintHandler};

verus! {

/// The page-content-process handler owning the two bridge extensions.
pub struct RenderProcessHandler {
    /// The engine-mandated reference count.
    pub ref_count: RefCount,
    /// The PDF-export bridge.
    pub pdf_print_extension: V8PDFPrintHandler,
    /// The file-dialog bridge.
    pub file_dialog_extension: V8FileDialogHandler,
}

impl RenderProcessHandler {
    /// Takes one more counted reference to this handler.
    pub fn inc_ref(&mut self)
        requires
            old(self).ref_count.count() >= 1,
            old(self).ref_count.count() < u64::MAX,
        ensures
            final(self).ref_count.count() == old(self).ref_count.count() + 1,
            final(self).pdf_print_extension == old(self).pdf_print_extension,
            final(self).file_dialog_extension == old(self).file_dialog_extension,
    {
        self.ref_count.add_ref();
    }

    /// The web environment is initialized: both extensions are to be
    /// registered, PDF printer first.
    pub fn on_web_kit_initialized(&self) -> (r: (ExtensionRegistration, ExtensionRegistration))
        ensures
            r.0.extension_name@ == "CEF PDF Printer"@,
            r.0.code@ == v8_pdf_print_handler::PDF_EXTENSION_CODE@,
            r.1.extension_name@ == "CEF File Dialogs"@,
            r.1.code@ == v8_file_dialog_handler::FILE_DIALOG_EXTENSION_CODE@,
    {
        (v8_pdf_print_handler::register_extension(), v8_file_dialog_handler::register_extension())
    }

    /// A browser exists in this process: bind both bridges to it, the
    /// dialog bridge through the browser's main frame.
    pub fn on_browser_created(&mut self, browser: u64)
        ensures
            final(self).pdf_print_extension@ == (PdfHandlerModel {
                browser: Some(browser),
                ..old(self).pdf_print_extension@
            }),
            final(self).file_dialog_extension@ == (DialogHandlerModel {
                frame: Some(browser),
                ..old(self).file_dialog_extension@
            }),
            final(self).ref_count == old(self).ref_count,
    {
        self.pdf_print_extension.browser = Some(browser);
        self.file_dialog_extension.frame = Some(browser);
    }

    /// The browser is gone: unbind both bridges.
    pub fn on_browser_destroyed(&mut self)
        ensures
            final(self).pdf_print_extension@ == (PdfHandlerModel {
                browser: None,
                ..old(self).pdf_print_extension@
            }),
            final(self).file_dialog_extension@ == (DialogHandlerModel {
                frame: None,
                ..old(self).file_dialog_extension@
            }),
            final(self).ref_count == old(self).ref_count,
    {
        self.pdf_print_extension.browser = None;
        self.file_dialog_extension.frame = None;
    }

    /// A message arrived from the browser process: offer it to the PDF
    /// bridge, then to the dialog bridge; report whether either recognized
    /// it, with the continuation invocation it owes, if any.
    pub fn on_process_message_received(&mut self, message: &ProcessMessage) -> (r: (
        bool,
        Option<CallbackInvocation>,
    ))
        ensures
            ({
                let pstep = spec_pdf_process_message(
                    old(self).pdf_print_extension@,
                    message@.name,
                    message@,
                );
                let dstep = spec_dialog_process_message(
                    old(self).file_dialog_extension@,
                    message@.name,
                    message@,
                );
                &&& r.0 == (pstep.handled || dstep.handled)
                &&& final(self).ref_count == old(self).ref_count
                &&& final(self).pdf_print_extension@ == (PdfHandlerModel {
                    pending: pstep.pending,
                    ..old(self).pdf_print_extension@
                })
                &&& final(self).file_dialog_extension@ == (DialogHandlerModel {
                    pending: if pstep.handled {
                        old(self).file_dialog_extension@.pending
                    } else {
                        dstep.pending
                    },
                    ..old(self).file_dialog_extension@
                })
                &&& match (
                    r.1,
                    if pstep.handled {
                        pstep.invocation
                    } else {
                        dstep.invocation
                    },
                ) {
                    (Some(inv), Some(q)) => inv@ == q,
                    (None, None) => true,
                    _ => false,
                }
            }),
    {
        let name = message.name().clone();
        let (pdf_handled, pdf_invocation) = v8_pdf_print_handler::process_message(
            &mut self.pdf_print_extension,
            &name,
            message,
        );
        if pdf_handled {
            return (true, pdf_invocation);
        }
        let (dialog_handled, dialog_invocation) = v8_file_dialog_handler::process_message(
            &mut self.file_dialog_extension,
            &name,
            message,
        );
        (dialog_handled, dialog_invocation)
    }
}

/// A freshly allocated page-content-process handler: one reference, both
/// bridges fresh.
pub fn allocate() -> (h: RenderProcessHandler)
    ensures
        h.ref_count.count() == 1,
        h.pdf_print_extension@ == (PdfHandlerModel { count: 1, browser: None, pending: None }),
        h.file_dialog_extension@ == (DialogHandlerModel { count: 1, frame: None, pending: None }),
{
    RenderProcessHandler {
        ref_count: RefCount::new(),
        pdf_print_extension: v8_pdf_print_handler::allocate(),
        file_dialog_extension: v8_file_dialog_handler::allocate(),
    }
}

} // verus!
