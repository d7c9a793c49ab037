//! The page side of the native-file-dialog RPC bridge.
//!
//! A script extension exposes `saveFileDialog` and `openFileDialog`, each
//! wrapped in a promise. The native function validates its arguments — the
//! default file name may be null, which is sent as an empty string —
//! captures the promise's continuations as the single pending call, and
//! sends the dialog request to the browser process. The
//! `run_file_dialog_done` reply resolves the promise with the chosen path,
//! or rejects it without a path when the user cancelled.

use vstd::prelude::*;

use crate::message::{ArgModel, MessageModel, ProcessMessage};
use crate::refcount::RefCount;
use crate::scripting::{
    script_func_id, script_text, script_views, CallbackInvocation, ExtensionRegistration,
    InvocationModel, PendingCall, ScriptModel, ScriptValue,
};
use crate::utf16::{decode_utf16_lossy, decode_utf16_replace};

verus! {

/// Whether a dialog lets the user pick an existing file or name a new one.
#[derive(Clone, Copy, PartialEq, Eq, Structural, Debug)]
pub enum FileDialogMode {
    Open,
    Save,
}

/// The script source of the file-dialog extension; the native function
/// names and arities declared here are what `execute` must accept.
pub const FILE_DIALOG_EXTENSION_CODE: &'static str = r#"
    var cef;
    if(!cef) cef = {};
    (function() {
        cef.saveFileDialog = function(title, defaultFileName, filter) {
            native function saveFileDialog(title, defaultFileName, filter, onDone, onError);
            return new Promise((resolve, reject) => {
                saveFileDialog(title, defaultFileName, filter, resolve, reject);
            });
        };
        cef.openFileDialog = function(title, defaultFileName, filter) {
            native function openFileDialog(title, defaultFileName, filter, onDone, onError);
            return new Promise((resolve, reject) => {
                openFileDialog(title, defaultFileName, filter, resolve, reject);
            });
        };
    })();
"#;

/// The handler behind the two dialog native functions: the frame the
/// requests travel through, once one exists, and the single pending-call
/// slot.
pub struct V8FileDialogHandler {
    /// The engine-mandated reference count.
    pub ref_count: RefCount,
    /// The frame that carries requests to the browser process, by handle.
    pub frame: Option<u64>,
    /// The captured continuations of the call in flight, if any.
    pub done_callback: Option<PendingCall>,
}

/// The mathematical state of the handler.
pub struct DialogHandlerModel {
    pub count: u64,
    pub frame: Option<u64>,
    pub pending: Option<PendingCall>,
}

impl View for V8FileDialogHandler {
    type V = DialogHandlerModel;

    open spec fn view(&self) -> DialogHandlerModel {
        DialogHandlerModel {
            count: self.ref_count.count(),
            frame: self.frame,
            pending: self.done_callback,
        }
    }
}

/// True when a native-function call is one of the two dialogs with
/// well-typed arguments: a string title, a string-or-null default file
/// name, a string filter and the two continuation functions.
pub open spec fn dialog_execute_accepts(name: Seq<u16>, args: Seq<ScriptModel>) -> bool {
    &&& (decode_utf16_replace(name) == "saveFileDialog"@ || decode_utf16_replace(name)
        == "openFileDialog"@)
    &&& args.len() == 5
    &&& args[0] is Text
    &&& (args[1] is Text || args[1] is Null)
    &&& args[2] is Text
    &&& args[3] is Func
    &&& args[4] is Func
}

/// The pending call captured by an accepted dialog invocation.
pub open spec fn dialog_pending_for(args: Seq<ScriptModel>, context: u64) -> PendingCall {
    PendingCall {
        context,
        on_done: script_func_id(args[3]),
        on_error: script_func_id(args[4]),
    }
}

/// The request message an accepted dialog invocation sends to the browser
/// process: `open_file_dialog` or `save_file_dialog` carrying title,
/// default file name (empty when the page passed null) and filter.
pub open spec fn dialog_request_message(name: Seq<u16>, args: Seq<ScriptModel>) -> MessageModel {
    MessageModel {
        name: if decode_utf16_replace(name) == "openFileDialog"@ {
            "open_file_dialog"@
        } else {
            "save_file_dialog"@
        },
        args: seq![
            ArgModel::Text(script_text(args[0])),
            ArgModel::Text(script_text(args[1])),
            ArgModel::Text(script_text(args[2])),
        ],
    }
}

/// What one `execute` call does: whether it was handled, the pending-call
/// slot afterwards, and the request sent, if any.
pub struct DialogExecuteStep {
    pub handled: bool,
    pub pending: Option<PendingCall>,
    pub request: Option<MessageModel>,
}

/// The native-function transition. A malformed call is not handled and
/// changes nothing. A well-formed call is handled; with a frame attached it
/// overwrites the pending slot — a still-pending earlier call is lost, the
/// documented single-slot limitation — and sends the request; without one
/// it sends nothing.
pub open spec fn spec_dialog_execute(
    h: DialogHandlerModel,
    name: Seq<u16>,
    args: Seq<ScriptModel>,
    context: u64,
) -> DialogExecuteStep {
    if !dialog_execute_accepts(name, args) {
        DialogExecuteStep { handled: false, pending: h.pending, request: None }
    } else if h.frame is Some {
        DialogExecuteStep {
            handled: true,
            pending: Some(dialog_pending_for(args, context)),
            request: Some(dialog_request_message(name, args)),
        }
    } else {
        DialogExecuteStep { handled: true, pending: h.pending, request: None }
    }
}

/// The path a `run_file_dialog_done` reply carries: the first argument when
/// it is a string; nothing when the reply has no arguments — the user
/// cancelled — or the position holds no string.
pub open spec fn dialog_reply_path(m: MessageModel) -> Option<Seq<char>> {
    if m.args.len() > 0 && m.args[0] is Text {
        Some(script_text(ScriptModel::Text(m.args[0]->Text_0)))
    } else {
        None
    }
}

/// What one reply delivery does: whether the message was recognized, the
/// pending-call slot afterwards, and the continuation invocation owed.
pub struct DialogReplyStep {
    pub handled: bool,
    pub pending: Option<PendingCall>,
    pub invocation: Option<InvocationModel>,
}

/// The reply transition. Only `run_file_dialog_done` is recognized; it
/// clears the pending slot and, when a call was pending, resolves with the
/// selected path, or rejects without a path value when the dialog was
/// cancelled.
pub open spec fn spec_dialog_process_message(
    h: DialogHandlerModel,
    name: Seq<char>,
    m: MessageModel,
) -> DialogReplyStep {
    if name != "run_file_dialog_done"@ {
        DialogReplyStep { handled: false, pending: h.pending, invocation: None }
    } else {
        match h.pending {
            Some(pc) => DialogReplyStep {
                handled: true,
                pending: None,
                invocation: Some(
                    match dialog_reply_path(m) {
                        Some(path) => InvocationModel {
                            context: pc.context,
                            target: pc.on_done,
                            argument: Some(path),
                        },
                        None => InvocationModel {
                            context: pc.context,
                            target: pc.on_error,
                            argument: None,
                        },
                    },
                ),
            },
            None => DialogReplyStep { handled: true, pending: None, invocation: None },
        }
    }
}

impl V8FileDialogHandler {
    /// Takes one more counted reference to this handler.
    pub fn inc_ref(&mut self)
        requires
            old(self)@.count >= 1,
            old(self)@.count < u64::MAX,
        ensures
            final(self)@ == (DialogHandlerModel {
                count: (old(self)@.count + 1) as u64,
                ..old(self)@
            }),
    {
        self.ref_count.add_ref();
    }

    /// The dialog native functions: validates the call, captures the
    /// continuations, and builds the request for the browser process.
    pub fn execute(&mut self, name: &Vec<u16>, args: &Vec<ScriptValue>, context: u64) -> (r: (
        bool,
        Option<ProcessMessage>,
    ))
        ensures
            ({
                let step = spec_dialog_execute(old(self)@, name@, script_views(args@), context);
                &&& r.0 == step.handled
                &&& final(self)@ == (DialogHandlerModel { pending: step.pending, ..old(self)@ })
                &&& match (r.1, step.request) {
                    (Some(m), Some(q)) => m@ == q,
                    (None, None) => true,
                    _ => false,
                }
            }),
    {
        let decoded = decode_utf16_lossy(name);
        let is_save = decoded == "saveFileDialog".to_owned();
        let is_open = decoded == "openFileDialog".to_owned();
        proof {
            assert(script_views(args@).len() == args@.len());
        }
        if !((is_save || is_open) && args.len() == 5) {
            return (false, None);
        }
        let title_is_text = match &args[0] {
            ScriptValue::Text(_) => true,
            _ => false,
        };
        let file_name_fits = match &args[1] {
            ScriptValue::Text(_) => true,
            ScriptValue::Null => true,
            _ => false,
        };
        let filter_is_text = match &args[2] {
            ScriptValue::Text(_) => true,
            _ => false,
        };
        let done_is_func = match &args[3] {
            ScriptValue::Func(_) => true,
            _ => false,
        };
        let error_is_func = match &args[4] {
            ScriptValue::Func(_) => true,
            _ => false,
        };
        proof {
            assert(args@[0]@ == script_views(args@)[0]);
            assert(args@[1]@ == script_views(args@)[1]);
            assert(args@[2]@ == script_views(args@)[2]);
            assert(args@[3]@ == script_views(args@)[3]);
            assert(args@[4]@ == script_views(args@)[4]);
        }
        if !(title_is_text && file_name_fits && filter_is_text && done_is_func && error_is_func) {
            return (false, None);
        }
        match self.frame {
            Some(_) => {
                let on_done = crate::scripting::func_id_of(&args[3]);
                let on_error = crate::scripting::func_id_of(&args[4]);
                self.done_callback = Some(PendingCall { context, on_done, on_error });
                let title = crate::scripting::text_of(&args[0]);
                let file_name = crate::scripting::text_of(&args[1]);
                let filter = crate::scripting::text_of(&args[2]);
                let mut m = if is_open {
                    ProcessMessage::create("open_file_dialog".to_owned())
                } else {
                    ProcessMessage::create("save_file_dialog".to_owned())
                };
                m.set_size(3);
                m.set_string(0, title);
                m.set_string(1, file_name);
                m.set_string(2, filter);
                proof {
                    assert(m@.args =~= dialog_request_message(name@, script_views(args@)).args);
                }
                (true, Some(m))
            },
            None => (true, None),
        }
    }
}

/// The extension registered at web-environment initialization: its name
/// and the script source declaring the two dialog functions.
pub fn register_extension() -> (r: ExtensionRegistration)
    ensures
        r.extension_name@ == "CEF File Dialogs"@,
        r.code@ == FILE_DIALOG_EXTENSION_CODE@,
{
    ExtensionRegistration {
        extension_name: "CEF File Dialogs".to_owned(),
        code: FILE_DIALOG_EXTENSION_CODE.to_owned(),
    }
}

/// Delivers a process message to the handler; recognizes only the
/// `run_file_dialog_done` reply.
pub fn process_message(
    handler: &mut V8FileDialogHandler,
    message_name: &String,
    message: &ProcessMessage,
) -> (r: (bool, Option<CallbackInvocation>))
    ensures
        ({
            let step = spec_dialog_process_message(old(handler)@, message_name@, message@);
            &&& r.0 == step.handled
            &&& final(handler)@ == (DialogHandlerModel { pending: step.pending, ..old(handler)@ })
            &&& match (r.1, step.invocation) {
                (Some(inv), Some(q)) => inv@ == q,
                (None, None) => true,
                _ => false,
            }
        }),
{
    let expected: String = "run_file_dialog_done".to_owned();
    if !(*message_name == expected) {
        return (false, None);
    }
    let path = message.get_string(0);
    match handler.done_callback {
        Some(pc) => {
            handler.done_callback = None;
            match path {
                Some(p) => (
                    true,
                    Some(
                        CallbackInvocation {
                            context: pc.context,
                            target: pc.on_done,
                            argument: Some(p),
                        },
                    ),
                ),
                None => (
                    true,
                    Some(
                        CallbackInvocation {
                            context: pc.context,
                            target: pc.on_error,
                            argument: None,
                        },
                    ),
                ),
            }
        },
        None => {
            handler.done_callback = None;
            (true, None)
        },
    }
}

/// A freshly allocated file-dialog handler: one reference, no frame, no
/// pending call.
pub fn allocate() -> (h: V8FileDialogHandler)
    ensures
        h@ == (DialogHandlerModel { count: 1, frame: None, pending: None }),
{
    V8FileDialogHandler { ref_count: RefCount::new(), frame: None, done_callback: None }
}

/// A `run_file_dialog_done` reply that carries no path — the user
/// cancelled — invokes the reject continuation with no path value, never
/// resolve, and clears the pending slot.
pub proof fn lemma_dialog_cancellation_rejects(
    h: DialogHandlerModel,
    pc: PendingCall,
    reply: MessageModel,
)
    requires
        h.pending == Some(pc),
        reply.args.len() == 0 || !(reply.args[0] is Text),
    ensures
        ({
            let fin = spec_dialog_process_message(h, "run_file_dialog_done"@, reply);
            &&& fin.invocation == Some(
                InvocationModel { context: pc.context, target: pc.on_error, argument: None },
            )
            &&& fin.pending is None
        }),
{
}

/// Delivering a reply that carries a selected path to the state an accepted
/// dialog call left behind resolves the captured continuation exactly once,
/// with that path, and clears the pending slot.
pub proof fn lemma_dialog_round_trip_resolves(
    h: DialogHandlerModel,
    name: Seq<u16>,
    args: Seq<ScriptModel>,
    context: u64,
    reply: MessageModel,
    path: Seq<char>,
)
    requires
        dialog_execute_accepts(name, args),
        h.frame is Some,
        reply.args.len() > 0,
        reply.args[0] == ArgModel::Text(path),
    ensures
        ({
            let step = spec_dialog_execute(h, name, args, context);
            let after = DialogHandlerModel { pending: step.pending, ..h };
            let fin = spec_dialog_process_message(after, "run_file_dialog_done"@, reply);
            &&& step.pending == Some(dialog_pending_for(args, context))
            &&& fin.invocation == Some(
                InvocationModel {
                    context,
                    target: dialog_pending_for(args, context).on_done,
                    argument: Some(path),
                },
            )
            &&& fin.pending is None
        }),
{
}

} // verus!
