//! The page side of the PDF-export RPC bridge.
//!
//! A script extension exposes `printToPDF(path)`, wrapped in a promise. The
//! native function validates its arguments, captures the promise's two
//! continuations as the single pending call, and sends a `print_to_pdf`
//! message to the browser process. When the `print_to_pdf_done` reply comes
//! back, the pending call is cleared and exactly one of the continuations is
//! invoked: resolve on success, reject on failure.

use vstd::prelude::*;

use crate::message::{ArgModel, MessageModel, ProcessMessage};
use crate::refcount::RefCount;
use crate::scripting::{
    script_func_id, script_text, script_views, CallbackInvocation, ExtensionRegistration,
    InvocationModel, PendingCall, ScriptModel, ScriptValue,
};
use crate::utf16::{decode_utf16_lossy, decode_utf16_replace};

verus! {

/// The script source of the PDF-printing extension; the native function name
/// and arity declared here are what `execute` must accept.
pub const PDF_EXTENSION_CODE: &'static str = r#"
    var cef;
    if(!cef) cef = {};
    (function() {
        cef.printToPDF = function(path) {
            native function printToPDF(path, onDone, onError);
            return new Promise((resolve, reject) => {
                printToPDF(path, resolve, reject);
            });
        };
    })();
"#;

/// The handler behind the `printToPDF` native function: the browser it
/// belongs to, once one exists, and the single pending-call slot.
pub struct V8PDFPrintHandler {
    /// The engine-mandated reference count.
    pub ref_count: RefCount,
    /// The browser instance whose main frame carries the request, by handle.
    pub browser: Option<u64>,
    /// The captured continuations of the call in flight, if any.
    pub done_callback: Option<PendingCall>,
}

/// The mathematical state of the handler.
pub struct PdfHandlerModel {
    pub count: u64,
    pub browser: Option<u64>,
    pub pending: Option<PendingCall>,
}

impl View for V8PDFPrintHandler {
    type V = PdfHandlerModel;

    open spec fn view(&self) -> PdfHandlerModel {
        PdfHandlerModel {
            count: self.ref_count.count(),
            browser: self.browser,
            pending: self.done_callback,
        }
    }
}

/// True when a native-function call is the PDF export with well-typed
/// arguments: the declared name, a string path and the two continuation
/// functions.
pub open spec fn pdf_execute_accepts(name: Seq<u16>, args: Seq<ScriptModel>) -> bool {
    &&& decode_utf16_replace(name) == "printToPDF"@
    &&& args.len() == 3
    &&& args[0] is Text
    &&& args[1] is Func
    &&& args[2] is Func
}

/// The pending call captured by an accepted PDF-export invocation.
pub open spec fn pdf_pending_for(args: Seq<ScriptModel>, context: u64) -> PendingCall {
    PendingCall {
        context,
        on_done: script_func_id(args[1]),
        on_error: script_func_id(args[2]),
    }
}

/// The request message an accepted PDF-export invocation sends to the
/// browser process: `print_to_pdf` carrying the path.
pub open spec fn pdf_request_message(args: Seq<ScriptModel>) -> MessageModel {
    MessageModel { name: "print_to_pdf"@, args: seq![ArgModel::Text(script_text(args[0]))] }
}

/// What one `execute` call does: whether it was handled, the pending-call
/// slot afterwards, and the request sent, if any.
pub struct PdfExecuteStep {
    pub handled: bool,
    pub pending: Option<PendingCall>,
    pub request: Option<MessageModel>,
}

/// The native-function transition. A malformed call is not handled and
/// changes nothing. A well-formed call is handled; with a browser attached
/// it overwrites the pending slot — a still-pending earlier call is lost,
/// the documented single-slot limitation — and sends the request; without
/// one it sends nothing.
pub open spec fn spec_pdf_execute(
    h: PdfHandlerModel,
    name: Seq<u16>,
    args: Seq<ScriptModel>,
    context: u64,
) -> PdfExecuteStep {
    if !pdf_execute_accepts(name, args) {
        PdfExecuteStep { handled: false, pending: h.pending, request: None }
    } else if h.browser is Some {
        PdfExecuteStep {
            handled: true,
            pending: Some(pdf_pending_for(args, context)),
            request: Some(pdf_request_message(args)),
        }
    } else {
        PdfExecuteStep { handled: true, pending: h.pending, request: None }
    }
}

/// True of a `print_to_pdf_done` reply that reports success.
pub open spec fn pdf_reply_ok(m: MessageModel) -> bool {
    m.args.len() > 0 && m.args[0] == ArgModel::Flag(true)
}

/// What one reply delivery does: whether the message was recognized, the
/// pending-call slot afterwards, and the continuation invocation owed.
pub struct PdfReplyStep {
    pub handled: bool,
    pub pending: Option<PendingCall>,
    pub invocation: Option<InvocationModel>,
}

/// The reply transition. Only `print_to_pdf_done` is recognized; it clears
/// the pending slot and, when a call was pending, invokes resolve on
/// success and reject on failure, with no argument either way.
pub open spec fn spec_pdf_process_message(
    h: PdfHandlerModel,
    name: Seq<char>,
    m: MessageModel,
) -> PdfReplyStep {
    if name != "print_to_pdf_done"@ {
        PdfReplyStep { handled: false, pending: h.pending, invocation: None }
    } else {
        match h.pending {
            Some(pc) => PdfReplyStep {
                handled: true,
                pending: None,
                invocation: Some(
                    InvocationModel {
                        context: pc.context,
                        target: if pdf_reply_ok(m) {
                            pc.on_done
                        } else {
                            pc.on_error
                        },
                        argument: None,
                    },
                ),
            },
            None => PdfReplyStep { handled: true, pending: None, invocation: None },
        }
    }
}

impl V8PDFPrintHandler {
    /// Takes one more counted reference to this handler.
    pub fn inc_ref(&mut self)
        requires
            old(self)@.count >= 1,
            old(self)@.count < u64::MAX,
        ensures
            final(self)@ == (PdfHandlerModel {
                count: (old(self)@.count + 1) as u64,
                ..old(self)@
            }),
    {
        self.ref_count.add_ref();
    }

    /// The `printToPDF` native function: validates the call, captures the
    /// continuations, and builds the request for the browser process.
    pub fn execute(&mut self, name: &Vec<u16>, args: &Vec<ScriptValue>, context: u64) -> (r: (
        bool,
        Option<ProcessMessage>,
    ))
        ensures
            ({
                let step = spec_pdf_execute(old(self)@, name@, script_views(args@), context);
                &&& r.0 == step.handled
                &&& final(self)@ == (PdfHandlerModel { pending: step.pending, ..old(self)@ })
                &&& match (r.1, step.request) {
                    (Some(m), Some(q)) => m@ == q,
                    (None, None) => true,
                    _ => false,
                }
            }),
    {
        let decoded = decode_utf16_lossy(name);
        let expected: String = "printToPDF".to_owned();
        proof {
            assert(script_views(args@).len() == args@.len());
        }
        if !(decoded == expected && args.len() == 3) {
            return (false, None);
        }
        let path_is_text = match &args[0] {
            ScriptValue::Text(_) => true,
            _ => false,
        };
        let done_is_func = match &args[1] {
            ScriptValue::Func(_) => true,
            _ => false,
        };
        let error_is_func = match &args[2] {
            ScriptValue::Func(_) => true,
            _ => false,
        };
        let shaped = path_is_text && done_is_func && error_is_func;
        proof {
            assert(args@[0]@ == script_views(args@)[0]);
            assert(args@[1]@ == script_views(args@)[1]);
            assert(args@[2]@ == script_views(args@)[2]);
        }
        if !shaped {
            return (false, None);
        }
        match self.browser {
            Some(_) => {
                let on_done = crate::scripting::func_id_of(&args[1]);
                let on_error = crate::scripting::func_id_of(&args[2]);
                self.done_callback = Some(PendingCall { context, on_done, on_error });
                let path = crate::scripting::text_of(&args[0]);
                let mut m = ProcessMessage::create("print_to_pdf".to_owned());
                m.set_size(1);
                m.set_string(0, path);
                proof {
                    assert(m@.args =~= pdf_request_message(script_views(args@)).args);
                }
                (true, Some(m))
            },
            None => (true, None),
        }
    }
}

/// The extension registered at web-environment initialization: its name and
/// the script source declaring `printToPDF`.
pub fn register_extension() -> (r: ExtensionRegistration)
    ensures
        r.extension_name@ == "CEF PDF Printer"@,
        r.code@ == PDF_EXTENSION_CODE@,
{
    ExtensionRegistration {
        extension_name: "CEF PDF Printer".to_owned(),
        code: PDF_EXTENSION_CODE.to_owned(),
    }
}

/// Delivers a process message to the handler; recognizes only the
/// `print_to_pdf_done` reply.
pub fn process_message(
    handler: &mut V8PDFPrintHandler,
    message_name: &String,
    message: &ProcessMessage,
) -> (r: (bool, Option<CallbackInvocation>))
    ensures
        ({
            let step = spec_pdf_process_message(old(handler)@, message_name@, message@);
            &&& r.0 == step.handled
            &&& final(handler)@ == (PdfHandlerModel { pending: step.pending, ..old(handler)@ })
            &&& match (r.1, step.invocation) {
                (Some(inv), Some(q)) => inv@ == q,
                (None, None) => true,
                _ => false,
            }
        }),
{
    let expected: String = "print_to_pdf_done".to_owned();
    if !(*message_name == expected) {
        return (false, None);
    }
    let ok = match message.get_bool(0) {
        Some(b) => b,
        None => false,
    };
    match handler.done_callback {
        Some(pc) => {
            handler.done_callback = None;
            let target = if ok {
                pc.on_done
            } else {
                pc.on_error
            };
            (true, Some(CallbackInvocation { context: pc.context, target, argument: None }))
        },
        None => {
            handler.done_callback = None;
            (true, None)
        },
    }
}

/// A freshly allocated PDF-print handler: one reference, no browser, no
/// pending call.
pub fn allocate() -> (h: V8PDFPrintHandler)
    ensures
        h@ == (PdfHandlerModel { count: 1, browser: None, pending: None }),
{
    V8PDFPrintHandler { ref_count: RefCount::new(), browser: None, done_callback: None }
}

/// Delivering a successful reply to the state an accepted export call left
/// behind resolves — not rejects — the captured continuation exactly once,
/// and clears the pending slot.
pub proof fn lemma_pdf_round_trip_resolves(
    h: PdfHandlerModel,
    name: Seq<u16>,
    args: Seq<ScriptModel>,
    context: u64,
    reply: MessageModel,
)
    requires
        pdf_execute_accepts(name, args),
        h.browser is Some,
        pdf_reply_ok(reply),
    ensures
        ({
            let step = spec_pdf_execute(h, name, args, context);
            let after = PdfHandlerModel { pending: step.pending, ..h };
            let fin = spec_pdf_process_message(after, "print_to_pdf_done"@, reply);
            &&& step.pending == Some(pdf_pending_for(args, context))
            &&& fin.invocation == Some(
                InvocationModel {
                    context,
                    target: pdf_pending_for(args, context).on_done,
                    argument: None,
                },
            )
            &&& fin.pending is None
        }),
{
}

/// Delivering a failed reply to the same state invokes the reject
/// continuation, not resolve, and clears the pending slot.
pub proof fn lemma_pdf_round_trip_rejects(
    h: PdfHandlerModel,
    name: Seq<u16>,
    args: Seq<ScriptModel>,
    context: u64,
    reply: MessageModel,
)
    requires
        pdf_execute_accepts(name, args),
        h.browser is Some,
        !pdf_reply_ok(reply),
    ensures
        ({
            let step = spec_pdf_execute(h, name, args, context);
            let after = PdfHandlerModel { pending: step.pending, ..h };
            let fin = spec_pdf_process_message(after, "print_to_pdf_done"@, reply);
            &&& fin.invocation == Some(
                InvocationModel {
                    context,
                    target: pdf_pending_for(args, context).on_error,
                    argument: None,
                },
            )
            &&& fin.pending is None
        }),
{
}

} // verus!
