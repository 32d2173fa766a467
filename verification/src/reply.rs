//! What the host is told.
//!
//! The engine's answer to a call comes back as an [`Outcome`].  [`reply`]
//! turns it into the value that the host receives: `ok` or `{ok, Result}`
//! where the call went well, `not_found` where a key holds nothing, `done`
//! where an iterator has no entry left, and `{error, Message}` where the
//! engine failed or a column family is not known.

use vstd::prelude::*;
use vstd::string::*;
use crate::call::{CallView, EngineCall, name_view};
use crate::term::{Term, Value, atom, copy_bytes};

verus! {

/// What an [`Outcome`] stands for.
pub enum OutcomeView {
    Done,
    Value(Option<Seq<u8>>),
    Entry(Option<(Seq<u8>, Seq<u8>)>),
    Total(u64),
    Missing,
    Failed(Seq<u8>),
}

/// What the engine answered.
#[derive(Clone, Debug, PartialEq, Eq)]
pub enum Outcome {
    /// The engine did what was asked and hands nothing back.
    Done,
    /// What a key holds, if it holds anything.
    Value(Option<Vec<u8>>),
    /// The key and the value of the entry that an iterator was at, if it
    /// was at one.
    Entry(Option<(Vec<u8>, Vec<u8>)>),
    /// The number of entries.
    Total(u64),
    /// The database knows no column family of the name that the call gave.
    Missing,
    /// The engine failed, with this message.
    Failed(Vec<u8>),
}

impl View for Outcome {
    type V = OutcomeView;

    open spec fn view(&self) -> OutcomeView {
        match self {
            Outcome::Done => OutcomeView::Done,
            Outcome::Value(held) => OutcomeView::Value(name_view(*held)),
            Outcome::Entry(entry) => OutcomeView::Entry(
                match entry {
                    Some((key, value)) => Some((key@, value@)),
                    None => None,
                },
            ),
            Outcome::Total(n) => OutcomeView::Total(*n),
            Outcome::Missing => OutcomeView::Missing,
            Outcome::Failed(message) => OutcomeView::Failed(message@),
        }
    }
}

/// The tuple of an atom and a value.
pub open spec fn tagged(tag: &str, value: Value) -> Value {
    Value::Tuple(seq![atom(tag), value])
}

/// The message that says that a column family is not known.
pub open spec fn missing_message(name: Seq<u8>) -> Seq<u8> {
    "not found: ".spec_bytes() + name
}

/// The column family that a call names.
pub open spec fn family_named(call: CallView) -> Option<Seq<u8>> {
    match call {
        CallView::FindFamily { name } => Some(name),
        CallView::Put { family, .. } => family,
        CallView::Delete { family, .. } => family,
        CallView::Get { family, .. } => family,
        CallView::Count { family } => family,
        CallView::Iterate { family, .. } => family,
        _ => None,
    }
}

/// Whether the engine can fail on a call with a message of its own.  It
/// cannot where the call only looks a name up, counts the default family,
/// or works on an iterator that exists already.
pub open spec fn can_fail(call: CallView) -> bool {
    match call {
        CallView::Open { .. } => true,
        CallView::CreateFamily { .. } => true,
        CallView::Put { .. } => true,
        CallView::Delete { .. } => true,
        CallView::Get { .. } => true,
        CallView::Iterate { .. } => true,
        CallView::Count { family } => family is Some,
        _ => false,
    }
}

/// What the host is told when the engine did what was asked and handed
/// nothing back.
pub open spec fn done_reply(call: CallView) -> Option<Value> {
    match call {
        CallView::Open { .. } => Some(tagged("ok", Value::Database)),
        CallView::CreateFamily { name, .. } => Some(tagged("ok", Value::Family(name))),
        CallView::FindFamily { name } => Some(tagged("ok", Value::Family(name))),
        CallView::Put { .. } => Some(atom("ok")),
        CallView::Delete { .. } => Some(atom("ok")),
        CallView::Iterate { .. } => Some(tagged("ok", Value::Cursor)),
        CallView::Seek { .. } => Some(atom("ok")),
        _ => None,
    }
}

/// What the host is told when the engine answered a call with an outcome,
/// or nothing where the outcome is no answer to the call.
pub open spec fn reply_of(call: CallView, outcome: OutcomeView) -> Option<Value> {
    match outcome {
        OutcomeView::Failed(message) => if can_fail(call) {
            Some(tagged("error", Value::Binary(message)))
        } else {
            None
        },
        OutcomeView::Missing => match family_named(call) {
            Some(name) => Some(tagged("error", Value::Binary(missing_message(name)))),
            None => None,
        },
        OutcomeView::Done => done_reply(call),
        OutcomeView::Value(held) => match call {
            CallView::Get { .. } => match held {
                Some(bytes) => Some(tagged("ok", Value::Binary(bytes))),
                None => Some(atom("not_found")),
            },
            _ => None,
        },
        OutcomeView::Total(n) => match call {
            CallView::Count { .. } => Some(Value::Integer(n as int)),
            _ => None,
        },
        OutcomeView::Entry(entry) => match call {
            CallView::Advance => match entry {
                Some((key, value)) => Some(
                    Value::Tuple(seq![Value::Binary(key), Value::Binary(value)]),
                ),
                None => Some(atom("done")),
            },
            _ => None,
        },
    }
}

/// The name of the column family that a call names.
fn family_of<'a>(call: &'a EngineCall) -> (name: Option<&'a Vec<u8>>)
    ensures
        match family_named(call@) {
            Some(bytes) => name is Some && name.unwrap()@ == bytes,
            None => name is None,
        },
{
    match call {
        EngineCall::FindFamily { name } => Some(name),
        EngineCall::Put { family, .. } => family.as_ref(),
        EngineCall::Delete { family, .. } => family.as_ref(),
        EngineCall::Get { family, .. } => family.as_ref(),
        EngineCall::Count { family } => family.as_ref(),
        EngineCall::Iterate { family, .. } => family.as_ref(),
        _ => None,
    }
}

/// The tuple of an atom and a term.
fn tag(name: &str, term: Term) -> (tuple: Term)
    ensures
        tuple@ == tagged(name, term@),
{
    Term::pair(Term::atom(name), term)
}

/// The message that says that a column family is not known.
fn missing(name: &Vec<u8>) -> (message: Vec<u8>)
    ensures
        message@ == missing_message(name@),
{
    let mut message = copy_bytes("not found: ".as_bytes());
    let ghost head = message@;
    let mut i: usize = 0;
    while i < name.len()
        invariant
            i <= name@.len(),
            message@ == head + name@.take(i as int),
        decreases name@.len() - i,
    {
        message.push(name[i]);
        assert(head + name@.take(i + 1) =~= (head + name@.take(i as int)).push(name@[i as int]));
        i += 1;
    }
    assert(name@.take(i as int) =~= name@);
    message
}

/// What the host is told when the engine did what was asked and handed
/// nothing back.
fn done(call: &EngineCall) -> (told: Option<Term>)
    ensures
        match done_reply(call@) {
            Some(value) => told is Some && told.unwrap()@ == value,
            None => told is None,
        },
{
    match call {
        EngineCall::Open { .. } => Some(tag("ok", Term::Database)),
        EngineCall::CreateFamily { name, .. } => Some(
            tag("ok", Term::Family(copy_bytes(name.as_slice()))),
        ),
        EngineCall::FindFamily { name } => Some(
            tag("ok", Term::Family(copy_bytes(name.as_slice()))),
        ),
        EngineCall::Put { .. } => Some(Term::atom("ok")),
        EngineCall::Delete { .. } => Some(Term::atom("ok")),
        EngineCall::Iterate { .. } => Some(tag("ok", Term::Cursor)),
        EngineCall::Seek { .. } => Some(Term::atom("ok")),
        _ => None,
    }
}

/// Whether the engine can fail on a call with a message of its own.
fn fails(call: &EngineCall) -> (can: bool)
    ensures
        can == can_fail(call@),
{
    match call {
        EngineCall::Open { .. } => true,
        EngineCall::CreateFamily { .. } => true,
        EngineCall::Put { .. } => true,
        EngineCall::Delete { .. } => true,
        EngineCall::Get { .. } => true,
        EngineCall::Iterate { .. } => true,
        EngineCall::Count { family } => family.is_some(),
        _ => false,
    }
}

/// Says what the host is told when the engine answered `call` with
/// `outcome`.  Where the outcome is no answer to the call, there is nothing
/// to tell.
///
/// A failure of the engine is handed on with the engine's own message,
/// unread.  That a key holds nothing is no failure: the host is told
/// `not_found`.
pub fn reply(call: &EngineCall, outcome: &Outcome) -> (told: Option<Term>)
    ensures
        match reply_of(call@, outcome@) {
            Some(value) => told is Some && told.unwrap()@ == value,
            None => told is None,
        },
{
    match outcome {
        Outcome::Failed(message) => {
            if fails(call) {
                Some(tag("error", Term::Binary(copy_bytes(message.as_slice()))))
            } else {
                None
            }
        },
        Outcome::Missing => match family_of(call) {
            Some(name) => Some(tag("error", Term::Binary(missing(name)))),
            None => None,
        },
        Outcome::Done => done(call),
        Outcome::Value(held) => match call {
            EngineCall::Get { .. } => match held {
                Some(bytes) => Some(tag("ok", Term::Binary(copy_bytes(bytes.as_slice())))),
                None => Some(Term::atom("not_found")),
            },
            _ => None,
        },
        Outcome::Total(n) => match call {
            EngineCall::Count { .. } => Some(Term::Integer(*n as i128)),
            _ => None,
        },
        Outcome::Entry(entry) => match call {
            EngineCall::Advance => match entry {
                Some((key, value)) => Some(
                    Term::pair(
                        Term::Binary(copy_bytes(key.as_slice())),
                        Term::Binary(copy_bytes(value.as_slice())),
                    ),
                ),
                None => Some(Term::atom("done")),
            },
            _ => None,
        },
    }
}

} // verus!
