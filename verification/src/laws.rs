//! What holds of the calls taken together.
//!
//! The storage engine is not part of this library, so nothing here speaks of
//! what the engine stores.  These laws say what the layer adds to it: which
//! entry each call addresses, what the host is told for each answer of the
//! engine, and which calls take turns.

use vstd::prelude::*;
use vstd::string::*;
use crate::call::{CallView, Guard, excludes, guard_of};
use crate::cursor::{CursorState, StepView, next_step, reset_call, state_after};
use crate::ops::{count_call, delete_call, get_call, put_call};
use crate::reply::{OutcomeView, reply_of, tagged};
use crate::term::{Value, atom};

verus! {

/// A write asks the engine to store under the very key and in the very
/// column family that a read with the same arguments asks for, the bytes
/// that it hands to the engine are those of the value, and a read that the
/// engine answers with those bytes tells the host `{ok, Value}` with that
/// value.
pub proof fn put_and_get_address_one_entry(
    db: Value,
    family: Option<Value>,
    key: Value,
    value: Value,
    options: Value,
)
    requires
        put_call(db, family, key, value, options) is Some,
    ensures
        get_call(db, family, key) is Some,
        get_call(db, family, key).unwrap()->Get_family == put_call(
            db,
            family,
            key,
            value,
            options,
        ).unwrap()->Put_family,
        get_call(db, family, key).unwrap()->Get_key == put_call(
            db,
            family,
            key,
            value,
            options,
        ).unwrap()->Put_key,
        Value::Binary(put_call(db, family, key, value, options).unwrap()->Put_value) == value,
        reply_of(
            get_call(db, family, key).unwrap(),
            OutcomeView::Value(Some(put_call(db, family, key, value, options).unwrap()->Put_value)),
        ) == Some(tagged("ok", value)),
{
}

/// A removal asks the engine for the very key and the very column family
/// that a read with the same arguments asks for.  When the engine reports
/// the removal done, whether or not the key held anything, the host is told
/// `ok`; when the engine finds nothing under a key, the host is told
/// `not_found`.
pub proof fn delete_and_get_address_one_entry(
    db: Value,
    family: Option<Value>,
    key: Value,
    options: Value,
)
    requires
        delete_call(db, family, key, options) is Some,
    ensures
        get_call(db, family, key) is Some,
        get_call(db, family, key).unwrap()->Get_family == delete_call(
            db,
            family,
            key,
            options,
        ).unwrap()->Delete_family,
        get_call(db, family, key).unwrap()->Get_key == delete_call(
            db,
            family,
            key,
            options,
        ).unwrap()->Delete_key,
        reply_of(delete_call(db, family, key, options).unwrap(), OutcomeView::Done) == Some(
            atom("ok"),
        ),
        reply_of(get_call(db, family, key).unwrap(), OutcomeView::Value(None)) == Some(
            atom("not_found"),
        ),
{
}

/// A call that hands over a reference to a column family addresses that
/// family and no other; a call that hands over none addresses the default
/// family.  So a write to a named family and a read of the default family
/// never address the same place, and the entries of a family are counted in
/// that family alone.
pub proof fn calls_address_their_own_family(
    db: Value,
    name: Seq<u8>,
    key: Value,
    value: Value,
    options: Value,
)
    requires
        put_call(db, Some(Value::Family(name)), key, value, options) is Some,
    ensures
        put_call(db, Some(Value::Family(name)), key, value, options).unwrap()->Put_family == Some(
            name,
        ),
        get_call(db, Some(Value::Family(name)), key).unwrap()->Get_family == Some(name),
        get_call(db, None, key) is Some,
        get_call(db, None, key).unwrap()->Get_family == None::<Seq<u8>>,
        count_call(db, Some(Value::Family(name))) == Some(CallView::Count { family: Some(name) }),
        count_call(db, None) == Some(CallView::Count { family: None }),
{
}

/// Where an iterator stands after the engine answered a run of calls on it,
/// one after the other.
pub open spec fn state_after_all(state: CursorState, run: Seq<(CallView, OutcomeView)>) -> CursorState
    decreases run.len(),
{
    if run.len() == 0 {
        state
    } else {
        state_after(state_after_all(state, run.drop_last()), run.last().0, run.last().1)
    }
}

/// An exhausted iterator stays exhausted, whatever the engine answers, as
/// long as it is not put somewhere else; and as long as it is exhausted the
/// host is answered `done` without the engine being asked.
pub proof fn exhausted_until_reset(run: Seq<(CallView, OutcomeView)>)
    requires
        forall|i: int| 0 <= i < run.len() ==> !((#[trigger] run[i]).0 is Seek),
    ensures
        state_after_all(CursorState::Exhausted, run) == CursorState::Exhausted,
        next_step(Value::Cursor, state_after_all(CursorState::Exhausted, run)) == Some(
            StepView::Answer(atom("done")),
        ),
    decreases run.len(),
{
    if run.len() > 0 {
        let earlier = run.drop_last();
        assert forall|i: int| 0 <= i < earlier.len() implies !((#[trigger] earlier[i]).0 is Seek) by {
            assert(earlier[i] == run[i]);
        }
        exhausted_until_reset(earlier);
        assert(!(run[run.len() - 1].0 is Seek));
    }
}

/// Putting an iterator somewhere else asks the engine to seek on the same
/// iterator, makes no new one, and leaves the iterator positioned, whatever
/// state it was in: the next step asks the engine again.
pub proof fn reset_repositions(state: CursorState, mode: Value)
    requires
        reset_call(Value::Cursor, mode) is Some,
    ensures
        reset_call(Value::Cursor, mode).unwrap() is Seek,
        reply_of(reset_call(Value::Cursor, mode).unwrap(), OutcomeView::Done) == Some(atom("ok")),
        state_after(state, reset_call(Value::Cursor, mode).unwrap(), OutcomeView::Done)
            == CursorState::Positioned,
        next_step(
            Value::Cursor,
            state_after(state, reset_call(Value::Cursor, mode).unwrap(), OutcomeView::Done),
        ) == Some(StepView::Ask(CallView::Advance)),
{
}

/// Two reads of one database both hold its guard as readers, and the guards
/// of two readers do not exclude each other.
pub proof fn guards_of_reads_do_not_exclude(
    db: Value,
    family: Option<Value>,
    key: Value,
    other_family: Option<Value>,
    other_key: Value,
)
    requires
        get_call(db, family, key) is Some,
        get_call(db, other_family, other_key) is Some,
    ensures
        guard_of(get_call(db, family, key).unwrap()) == Guard::SharedDatabase,
        !excludes(
            guard_of(get_call(db, family, key).unwrap()),
            guard_of(get_call(db, other_family, other_key).unwrap()),
        ),
{
}

/// The guard of a write and the guard of a read of the same key exclude
/// each other, whichever comes first.
pub proof fn guards_of_a_write_and_a_read_exclude(
    db: Value,
    family: Option<Value>,
    key: Value,
    value: Value,
    options: Value,
)
    requires
        put_call(db, family, key, value, options) is Some,
    ensures
        get_call(db, family, key) is Some,
        excludes(
            guard_of(put_call(db, family, key, value, options).unwrap()),
            guard_of(get_call(db, family, key).unwrap()),
        ),
        excludes(
            guard_of(get_call(db, family, key).unwrap()),
            guard_of(put_call(db, family, key, value, options).unwrap()),
        ),
{
}

/// Whether a value tells of a failure: the tuple of the atom `error` and a
/// message.
pub open spec fn tells_failure(told: Value) -> bool {
    told matches Value::Tuple(items) && items.len() == 2 && items[0] == atom("error")
}

/// The host is told of a failure exactly when the engine failed or a column
/// family is not known: no failure is ever dressed as a success, and no
/// success as a failure.
pub proof fn failures_are_tagged(call: CallView, outcome: OutcomeView)
    requires
        reply_of(call, outcome) is Some,
    ensures
        tells_failure(reply_of(call, outcome).unwrap()) <==> (outcome is Failed || outcome is Missing),
{
    reveal_strlit("ok");
    reveal_strlit("error");
    is_ascii_spec_bytes("ok");
    is_ascii_spec_bytes("error");
    assert("ok".spec_bytes().len() == 2);
    assert("error".spec_bytes().len() == 5);
    let told = reply_of(call, outcome).unwrap();
    match told {
        Value::Tuple(items) => {
            if outcome is Failed || outcome is Missing {
                assert(items[0] == atom("error"));
            } else if outcome is Entry {
                assert(items[0] is Binary);
            } else {
                assert(items[0] == atom("ok"));
            }
        },
        _ => {},
    }
}

/// A read has three answers, and the host can tell each from the others:
/// the value that the key holds, that the key holds nothing, and that the
/// engine failed.
pub proof fn a_read_has_three_answers(call: CallView, held: Seq<u8>, message: Seq<u8>)
    requires
        call is Get,
    ensures
        reply_of(call, OutcomeView::Value(Some(held))) == Some(tagged("ok", Value::Binary(held))),
        reply_of(call, OutcomeView::Value(None)) == Some(atom("not_found")),
        reply_of(call, OutcomeView::Failed(message)) == Some(tagged("error", Value::Binary(message))),
        tagged("ok", Value::Binary(held)) != atom("not_found"),
        tagged("error", Value::Binary(message)) != atom("not_found"),
        tagged("ok", Value::Binary(held)) != tagged("error", Value::Binary(message)),
{
    failures_are_tagged(call, OutcomeView::Value(Some(held)));
    failures_are_tagged(call, OutcomeView::Failed(message));
}

} // verus!
