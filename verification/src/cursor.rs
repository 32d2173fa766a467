//! The protocol of an iterator.
//!
//! An iterator is `Positioned` from the moment it is made: it is at an
//! entry, or the engine has yet to say that it is at none.  Once the engine
//! has said so the iterator is `Exhausted`, and stays so until it is put
//! somewhere else: each further step is answered `done`, and the engine is
//! not asked again.  Putting the iterator somewhere else works on the same
//! iterator; no new one is made.

use vstd::prelude::*;
use vstd::string::*;
use crate::call::{CallView, EngineCall};
use crate::mode::{decode_iterator_mode, position_of};
use crate::ops::agrees;
use crate::reply::{Outcome, OutcomeView};
use crate::term::{BadArgument, Term, Value, atom};

verus! {

/// Where an iterator stands in its protocol.
#[derive(Clone, Copy, Debug, PartialEq, Eq, Structural)]
pub enum CursorState {
    Positioned,
    Exhausted,
}

/// What a [`Step`] stands for.
pub enum StepView {
    Ask(CallView),
    Answer(Value),
}

/// What is to be done for a call: ask the engine, or answer the host at
/// once.
#[derive(Debug, PartialEq, Eq)]
pub enum Step {
    Ask(EngineCall),
    Answer(Term),
}

impl View for Step {
    type V = StepView;

    open spec fn view(&self) -> StepView {
        match self {
            Step::Ask(call) => StepView::Ask(call@),
            Step::Answer(term) => StepView::Answer(term@),
        }
    }
}

/// What is to be done when the host asks an iterator for its next entry.
pub open spec fn next_step(handle: Value, state: CursorState) -> Option<StepView> {
    if handle != Value::Cursor {
        None
    } else {
        match state {
            CursorState::Positioned => Some(StepView::Ask(CallView::Advance)),
            CursorState::Exhausted => Some(StepView::Answer(atom("done"))),
        }
    }
}

/// What is to be asked of the engine when the host puts an iterator
/// somewhere else.
pub open spec fn reset_call(handle: Value, mode: Value) -> Option<CallView> {
    if handle != Value::Cursor {
        None
    } else {
        match position_of(mode) {
            Some(mode) => Some(CallView::Seek { mode }),
            None => None,
        }
    }
}

/// Where an iterator stands after the engine answered a call on it.  The
/// end of the entries exhausts it, a new position makes it positioned again,
/// and nothing else changes it.
pub open spec fn state_after(state: CursorState, call: CallView, outcome: OutcomeView) -> CursorState {
    match (call, outcome) {
        (CallView::Advance, OutcomeView::Entry(None)) => CursorState::Exhausted,
        (CallView::Seek { .. }, OutcomeView::Done) => CursorState::Positioned,
        _ => state,
    }
}

impl CursorState {
    /// The state of an iterator that was just made.
    pub fn new() -> (state: CursorState)
        ensures
            state == CursorState::Positioned,
    {
        CursorState::Positioned
    }

    /// Where the iterator stands after the engine answered `call` with
    /// `outcome`.
    pub fn after(self, call: &EngineCall, outcome: &Outcome) -> (state: CursorState)
        ensures
            state == state_after(self, call@, outcome@),
    {
        match call {
            EngineCall::Advance => match outcome {
                Outcome::Entry(None) => CursorState::Exhausted,
                _ => self,
            },
            EngineCall::Seek { .. } => match outcome {
                Outcome::Done => CursorState::Positioned,
                _ => self,
            },
            _ => self,
        }
    }
}

/// Asks an iterator for its next entry.  A positioned iterator is stepped by
/// the engine; an exhausted one is answered `done` at once.
pub fn iterator_next(handle: &Term, state: CursorState) -> (decoded: Result<Step, BadArgument>)
    ensures
        match next_step(handle@, state) {
            Some(step) => decoded is Ok && decoded.unwrap()@ == step,
            None => decoded is Err,
        },
{
    match handle {
        Term::Cursor => match state {
            CursorState::Positioned => Ok(Step::Ask(EngineCall::Advance)),
            CursorState::Exhausted => Ok(Step::Answer(Term::atom("done"))),
        },
        _ => Err(BadArgument),
    }
}

/// Puts an iterator where `mode` says.
pub fn iterator_reset(handle: &Term, mode: &Term) -> (decoded: Result<EngineCall, BadArgument>)
    ensures
        agrees(decoded, reset_call(handle@, mode@)),
{
    match handle {
        Term::Cursor => {
            let mode = decode_iterator_mode(mode)?;
            Ok(EngineCall::Seek { mode })
        },
        _ => Err(BadArgument),
    }
}

} // verus!
