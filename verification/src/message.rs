//! The process-message codec: named, ordered argument lists exchanged
//! between the browser process and the page-content process.
//!
//! A message is a name plus positional arguments, each a string, boolean,
//! integer or binary value (this system only sends strings and booleans;
//! unset positions are null). Sender and receiver agree on count and types
//! purely by convention — the readers here report a mismatch as absence
//! rather than failing.

use vstd::prelude::*;

verus! {

/// One positional argument of a process message.
pub enum MessageArg {
    /// An unset position, as a freshly sized argument list leaves it.
    Null,
    /// A wide-string argument.
    Text(String),
    /// A boolean argument.
    Flag(bool),
    /// An integer argument.
    Number(i32),
    /// A binary argument.
    Blob(Vec<u8>),
}

/// The mathematical value of one argument.
pub enum ArgModel {
    Null,
    Text(Seq<char>),
    Flag(bool),
    Number(i32),
    Blob(Seq<u8>),
}

impl View for MessageArg {
    type V = ArgModel;

    open spec fn view(&self) -> ArgModel {
        match self {
            MessageArg::Null => ArgModel::Null,
            MessageArg::Text(s) => ArgModel::Text(s@),
            MessageArg::Flag(b) => ArgModel::Flag(*b),
            MessageArg::Number(n) => ArgModel::Number(*n),
            MessageArg::Blob(d) => ArgModel::Blob(d@),
        }
    }
}

/// The text at an argument position, or empty when the position is absent
/// or holds no string.
pub open spec fn arg_text_or_empty(args: Seq<ArgModel>, i: int) -> Seq<char> {
    if 0 <= i < args.len() && args[i] is Text {
        args[i]->Text_0
    } else {
        Seq::<char>::empty()
    }
}

/// The mathematical value of a whole message: its name and argument list.
pub struct MessageModel {
    pub name: Seq<char>,
    pub args: Seq<ArgModel>,
}

/// A named, ordered argument list, created per call, consumed synchronously
/// by the receiving handler.
pub struct ProcessMessage {
    name: String,
    args: Vec<MessageArg>,
}

impl View for ProcessMessage {
    type V = MessageModel;

    closed spec fn view(&self) -> MessageModel {
        MessageModel { name: self.name@, args: self.args@.map_values(|a: MessageArg| a@) }
    }
}

impl ProcessMessage {
    /// Allocates a fresh named message with no arguments.
    pub fn create(name: String) -> (m: ProcessMessage)
        ensures
            m@.name == name@,
            m@.args.len() == 0,
    {
        let m = ProcessMessage { name, args: Vec::new() };
        proof {
            assert(m.args@.map_values(|a: MessageArg| a@) =~= Seq::<ArgModel>::empty());
        }
        m
    }

    /// The message's name.
    pub fn name(&self) -> (r: &String)
        ensures
            r@ == self@.name,
    {
        &self.name
    }

    /// The number of argument positions.
    pub fn arg_count(&self) -> (r: usize)
        ensures
            r == self@.args.len(),
    {
        self.args.len()
    }

    /// Sets the number of argument positions: new positions are null, and
    /// positions beyond the new size are dropped.
    pub fn set_size(&mut self, n: usize)
        ensures
            final(self)@.name == old(self)@.name,
            final(self)@.args.len() == n,
            forall|i: int|
                0 <= i < n ==> final(self)@.args[i] == (if i < old(self)@.args.len() {
                    old(self)@.args[i]
                } else {
                    ArgModel::Null
                }),
    {
        while self.args.len() > n
            invariant
                self.name@ == old(self).name@,
                self.args@.len() <= old(self).args@.len(),
                self.args@.len() >= n || self.args@.len() == old(self).args@.len(),
                self.args@ == old(self).args@.take(self.args@.len() as int),
            decreases self.args@.len(),
        {
            proof {
                assert(old(self).args@.take(self.args@.len() as int).drop_last() =~= old(
                    self,
                ).args@.take(self.args@.len() - 1));
            }
            self.args.pop();
        }
        let ghost base = self.args@;
        while self.args.len() < n
            invariant
                self.name@ == old(self).name@,
                base == old(self).args@.take(base.len() as int),
                base.len() == (if old(self).args@.len() > n { n as int } else { old(self).args@.len() as int }),
                base.len() <= self.args@.len() <= n,
                self.args@.take(base.len() as int) == base,
                forall|i: int| base.len() <= i < self.args@.len() ==> self.args@[i] is Null,
            decreases n - self.args@.len(),
        {
            proof {
                assert(self.args@.push(MessageArg::Null).take(base.len() as int)
                    =~= self.args@.take(base.len() as int));
            }
            self.args.push(MessageArg::Null);
        }
        proof {
            assert(old(self).args@.take(old(self).args@.len() as int) =~= old(self).args@);
            assert forall|i: int| 0 <= i < n implies self@.args[i] == (if i < old(
                self,
            )@.args.len() {
                old(self)@.args[i]
            } else {
                ArgModel::Null
            }) by {
                if i < base.len() {
                    assert(self.args@.take(base.len() as int)[i] == self.args@[i]);
                    assert(old(self).args@.take(base.len() as int)[i] == old(self).args@[i]);
                }
            }
        }
    }

    /// Writes a string argument at the given position.
    pub fn set_string(&mut self, index: usize, value: String)
        requires
            index < old(self)@.args.len(),
        ensures
            final(self)@.name == old(self)@.name,
            final(self)@.args == old(self)@.args.update(index as int, ArgModel::Text(value@)),
    {
        self.args.set(index, MessageArg::Text(value));
        proof {
            assert(self@.args =~= old(self)@.args.update(index as int, ArgModel::Text(value@)));
        }
    }

    /// Writes a boolean argument at the given position.
    pub fn set_bool(&mut self, index: usize, value: bool)
        requires
            index < old(self)@.args.len(),
        ensures
            final(self)@.name == old(self)@.name,
            final(self)@.args == old(self)@.args.update(index as int, ArgModel::Flag(value)),
    {
        self.args.set(index, MessageArg::Flag(value));
        proof {
            assert(self@.args =~= old(self)@.args.update(index as int, ArgModel::Flag(value)));
        }
    }

    /// Reads the string at the given position; absent or differently typed
    /// positions read as nothing rather than failing.
    pub fn get_string(&self, index: usize) -> (r: Option<String>)
        ensures
            match r {
                Some(s) => index < self@.args.len() && self@.args[index as int] == ArgModel::Text(
                    s@,
                ),
                None => index >= self@.args.len() || !(self@.args[index as int] is Text),
            },
    {
        if index < self.args.len() {
            match &self.args[index] {
                MessageArg::Text(s) => Some(s.clone()),
                _ => None,
            }
        } else {
            None
        }
    }

    /// Reads the string at the given position, or the empty string when the
    /// position is absent or holds no string — the explicit null policy for
    /// optional text arguments.
    pub fn get_string_or_empty(&self, index: usize) -> (r: String)
        ensures
            r@ == arg_text_or_empty(self@.args, index as int),
    {
        match self.get_string(index) {
            Some(s) => s,
            None => String::new(),
        }
    }

    /// Reads the boolean at the given position; absent or differently typed
    /// positions read as nothing rather than failing.
    pub fn get_bool(&self, index: usize) -> (r: Option<bool>)
        ensures
            match r {
                Some(b) => index < self@.args.len() && self@.args[index as int] == ArgModel::Flag(
                    b,
                ),
                None => index >= self@.args.len() || !(self@.args[index as int] is Flag),
            },
    {
        if index < self.args.len() {
            match &self.args[index] {
                MessageArg::Flag(b) => Some(*b),
                _ => None,
            }
        } else {
            None
        }
    }
}

} // verus!
