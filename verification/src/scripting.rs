//! Values crossing the boundary with the page's scripting environment.
//!
//! A native extension function receives script values as arguments and
//! resumes a paused promise by invoking a captured continuation function
//! inside a captured execution context. Contexts and function objects are
//! opaque engine handles, carried here as plain identifiers.

use vstd::prelude::*;

verus! {

/// An argument handed to a native extension function by the page.
pub enum ScriptValue {
    /// A script string.
    Text(String),
    /// A script function object, by handle.
    Func(u64),
    /// The script null value.
    Null,
    /// Any other script value.
    Other,
}

/// The mathematical value of a script argument.
pub enum ScriptModel {
    Text(Seq<char>),
    Func(u64),
    Null,
    Other,
}

impl View for ScriptValue {
    type V = ScriptModel;

    open spec fn view(&self) -> ScriptModel {
        match self {
            ScriptValue::Text(s) => ScriptModel::Text(s@),
            ScriptValue::Func(id) => ScriptModel::Func(*id),
            ScriptValue::Null => ScriptModel::Null,
            ScriptValue::Other => ScriptModel::Other,
        }
    }
}

/// The values of a whole argument list.
pub open spec fn script_views(s: Seq<ScriptValue>) -> Seq<ScriptModel> {
    s.map_values(|v: ScriptValue| v@)
}

/// The handle of a function value; zero for any other value.
pub open spec fn script_func_id(v: ScriptModel) -> u64 {
    match v {
        ScriptModel::Func(id) => id,
        _ => 0,
    }
}

/// The characters of a string value; empty for any other value.
pub open spec fn script_text(v: ScriptModel) -> Seq<char> {
    match v {
        ScriptModel::Text(s) => s,
        _ => Seq::<char>::empty(),
    }
}

/// The handle of a function value; zero for any other value.
pub fn func_id_of(v: &ScriptValue) -> (r: u64)
    ensures
        r == script_func_id(v@),
{
    match v {
        ScriptValue::Func(id) => *id,
        _ => 0,
    }
}

/// The characters of a string value; empty for any other value.
pub fn text_of(v: &ScriptValue) -> (r: String)
    ensures
        r@ == script_text(v@),
{
    match v {
        ScriptValue::Text(s) => s.clone(),
        _ => String::new(),
    }
}

/// A script extension to register with the engine at web-environment
/// initialization: a name and the script source declaring its native
/// functions.
pub struct ExtensionRegistration {
    /// The extension's registered name.
    pub extension_name: String,
    /// The script source stub wrapping the native functions in promises.
    pub code: String,
}

/// The continuation pair a pending call captures: the execution context to
/// re-enter and the two promise continuations, success and failure.
#[derive(Clone, Copy, PartialEq, Eq, Structural)]
pub struct PendingCall {
    /// The captured script execution context.
    pub context: u64,
    /// The continuation that resolves the promise.
    pub on_done: u64,
    /// The continuation that rejects the promise.
    pub on_error: u64,
}

/// One continuation invocation owed to the page: re-enter the context, call
/// the target function — with the given string argument, if any — and exit
/// the context again.
pub struct CallbackInvocation {
    /// The execution context to re-enter.
    pub context: u64,
    /// The continuation function to call.
    pub target: u64,
    /// The single string argument, when the call carries one.
    pub argument: Option<String>,
}

/// The mathematical value of a continuation invocation.
pub struct InvocationModel {
    pub context: u64,
    pub target: u64,
    pub argument: Option<Seq<char>>,
}

impl View for CallbackInvocation {
    type V = InvocationModel;

    open spec fn view(&self) -> InvocationModel {
        InvocationModel {
            context: self.context,
            target: self.target,
            argument: match &self.argument {
                Some(s) => Some(s@),
                None => None,
            },
        }
    }
}

} // verus!
