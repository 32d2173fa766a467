//! The calls of the host, one function each.
//!
//! Each function takes the arguments of its call as the host handed them
//! over, checks their shape, and says what is to be asked of the engine.  An
//! argument of the wrong shape is refused before the engine is asked
//! anything.  Keys, names and paths are binaries that hold UTF-8 text;
//! values are binaries of any bytes.

use vstd::prelude::*;
use crate::call::{CallView, EngineCall, names_view};
use crate::mode::{decode_iterator_mode, position_of};
use crate::options::{decode_db_options, decode_write_options, settings_of};
use crate::schema::{database_schema, write_schema};
use crate::term::{BadArgument, Term, Value, copy_bytes, text_of, values, view_of_items};

verus! {

/// Whether a call was answered as wanted: with the request that the
/// arguments stand for, or with a refusal where they stand for none.
pub open spec fn agrees(decoded: Result<EngineCall, BadArgument>, wanted: Option<CallView>) -> bool {
    match wanted {
        Some(call) => decoded is Ok && decoded.unwrap()@ == call,
        None => decoded is Err,
    }
}

/// The bytes of a binary.
pub open spec fn bytes_of(value: Value) -> Option<Seq<u8>> {
    match value {
        Value::Binary(bytes) => Some(bytes),
        _ => None,
    }
}

/// The texts of a list of binaries that hold UTF-8 text.
pub open spec fn texts_of(value: Value) -> Option<Seq<Seq<u8>>> {
    match value {
        Value::List(items) => if forall|i: int|
            0 <= i < items.len() ==> text_of(#[trigger] items[i]) is Some {
            Some(Seq::new(items.len(), |i: int| text_of(items[i]).unwrap()))
        } else {
            None
        },
        _ => None,
    }
}

/// The column family that a call goes to: the default family where the call
/// names none (`Some(None)`), the named one where it hands over a reference
/// to a column family, and nothing where the first value is no reference to
/// a database or the second none to a column family.
pub open spec fn target_of(db: Value, family: Option<Value>) -> Option<Option<Seq<u8>>> {
    if db != Value::Database {
        None
    } else {
        match family {
            None => Some(None),
            Some(Value::Family(name)) => Some(Some(name)),
            Some(_) => None,
        }
    }
}

/// The value of a term, where there is one.
pub open spec fn value_view(term: Option<&Term>) -> Option<Value> {
    match term {
        Some(term) => Some(term@),
        None => None,
    }
}

/// What opening a database asks of the engine: the path is text, the
/// options are those of a database, and the families are a list of texts.
pub open spec fn open_call(path: Value, options: Value, families: Value) -> Option<CallView> {
    match (text_of(path), settings_of(options, database_schema()), texts_of(families)) {
        (Some(path), Some(options), Some(families)) => Some(
            CallView::Open { path, options, families },
        ),
        _ => None,
    }
}

/// What creating a column family asks of the engine.
pub open spec fn create_cf_call(db: Value, name: Value, options: Value) -> Option<CallView> {
    match (target_of(db, None), text_of(name), settings_of(options, database_schema())) {
        (Some(_), Some(name), Some(options)) => Some(CallView::CreateFamily { name, options }),
        _ => None,
    }
}

/// What looking a column family up asks of the engine.
pub open spec fn cf_handle_call(db: Value, name: Value) -> Option<CallView> {
    match (target_of(db, None), text_of(name)) {
        (Some(_), Some(name)) => Some(CallView::FindFamily { name }),
        _ => None,
    }
}

/// What storing a value asks of the engine: the key is text, the value is
/// a binary, and the options are those of a write.
pub open spec fn put_call(
    db: Value,
    family: Option<Value>,
    key: Value,
    value: Value,
    options: Value,
) -> Option<CallView> {
    match (
        target_of(db, family),
        text_of(key),
        bytes_of(value),
        settings_of(options, write_schema()),
    ) {
        (Some(family), Some(key), Some(value), Some(options)) => Some(
            CallView::Put { family, key, value, options },
        ),
        _ => None,
    }
}

/// What removing a key asks of the engine.
pub open spec fn delete_call(db: Value, family: Option<Value>, key: Value, options: Value) -> Option<
    CallView,
> {
    match (target_of(db, family), text_of(key), settings_of(options, write_schema())) {
        (Some(family), Some(key), Some(options)) => Some(CallView::Delete { family, key, options }),
        _ => None,
    }
}

/// What reading a key asks of the engine.
pub open spec fn get_call(db: Value, family: Option<Value>, key: Value) -> Option<CallView> {
    match (target_of(db, family), text_of(key)) {
        (Some(family), Some(key)) => Some(CallView::Get { family, key }),
        _ => None,
    }
}

/// What counting the entries asks of the engine.
pub open spec fn count_call(db: Value, family: Option<Value>) -> Option<CallView> {
    match target_of(db, family) {
        Some(family) => Some(CallView::Count { family }),
        None => None,
    }
}

/// What making an iterator asks of the engine.
pub open spec fn iterate_call(db: Value, family: Option<Value>, mode: Value) -> Option<CallView> {
    match (target_of(db, family), position_of(mode)) {
        (Some(family), Some(mode)) => Some(CallView::Iterate { family, mode }),
        _ => None,
    }
}

/// A copy of the text that a term holds.
fn text_copy(term: &Term) -> (copy: Result<Vec<u8>, BadArgument>)
    ensures
        match text_of(term@) {
            Some(text) => copy is Ok && copy.unwrap()@ == text,
            None => copy is Err,
        },
{
    match term.text() {
        Some(bytes) => Ok(copy_bytes(bytes.as_slice())),
        None => Err(BadArgument),
    }
}

/// A copy of the bytes that a term holds.
fn bytes_copy(term: &Term) -> (copy: Result<Vec<u8>, BadArgument>)
    ensures
        match bytes_of(term@) {
            Some(bytes) => copy is Ok && copy.unwrap()@ == bytes,
            None => copy is Err,
        },
{
    match term {
        Term::Binary(bytes) => Ok(copy_bytes(bytes.as_slice())),
        _ => Err(BadArgument),
    }
}

/// Copies of the texts that a list holds.
fn texts_copy(term: &Term) -> (copy: Result<Vec<Vec<u8>>, BadArgument>)
    ensures
        match texts_of(term@) {
            Some(texts) => copy is Ok && names_view(copy.unwrap()@) == texts,
            None => copy is Err,
        },
{
    match term {
        Term::List(items) => {
            proof {
                view_of_items(*items);
            }
            let mut texts: Vec<Vec<u8>> = Vec::new();
            let mut i: usize = 0;
            while i < items.len()
                invariant
                    i <= items@.len(),
                    term@ == Value::List(values(items@)),
                    texts@.len() == i,
                    forall|j: int| 0 <= j < i ==> text_of(#[trigger] values(items@)[j]) is Some,
                    forall|j: int|
                        0 <= j < i ==> (#[trigger] texts@[j])@ == text_of(
                            values(items@)[j],
                        ).unwrap(),
                decreases items@.len() - i,
            {
                match items[i].text() {
                    Some(bytes) => {
                        texts.push(copy_bytes(bytes.as_slice()));
                    },
                    None => {
                        assert(text_of(values(items@)[i as int]) is None);
                        return Err(BadArgument);
                    },
                }
                i += 1;
            }
            proof {
                assert(names_view(texts@) =~= texts_of(term@).unwrap());
            }
            Ok(texts)
        },
        _ => Err(BadArgument),
    }
}

/// The column family that a call goes to.
fn target(db: &Term, family: Option<&Term>) -> (found: Result<Option<Vec<u8>>, BadArgument>)
    ensures
        match target_of(db@, value_view(family)) {
            Some(Some(name)) => found is Ok && found.unwrap() is Some && found.unwrap().unwrap()@
                == name,
            Some(None) => found is Ok && found.unwrap() is None,
            None => found is Err,
        },
{
    match db {
        Term::Database => match family {
            None => Ok(None),
            Some(Term::Family(name)) => Ok(Some(copy_bytes(name.as_slice()))),
            Some(_) => Err(BadArgument),
        },
        _ => Err(BadArgument),
    }
}

/// Opens the database at `path`, with the column families that `families`
/// lists.  The engine refuses a family that does not exist yet.
pub fn open(path: &Term, options: &Term, families: &Term) -> (decoded: Result<
    EngineCall,
    BadArgument,
>)
    ensures
        agrees(decoded, open_call(path@, options@, families@)),
{
    let path = text_copy(path)?;
    let options = decode_db_options(options)?;
    let families = texts_copy(families)?;
    Ok(EngineCall::Open { path, options, families })
}

/// Creates a column family in a database.
pub fn create_cf(db: &Term, name: &Term, options: &Term) -> (decoded: Result<
    EngineCall,
    BadArgument,
>)
    ensures
        agrees(decoded, create_cf_call(db@, name@, options@)),
{
    let _ = target(db, None)?;
    let name = text_copy(name)?;
    let options = decode_db_options(options)?;
    Ok(EngineCall::CreateFamily { name, options })
}

/// Looks a column family of a database up by its name.
pub fn cf_handle(db: &Term, name: &Term) -> (decoded: Result<EngineCall, BadArgument>)
    ensures
        agrees(decoded, cf_handle_call(db@, name@)),
{
    let _ = target(db, None)?;
    let name = text_copy(name)?;
    Ok(EngineCall::FindFamily { name })
}

/// Stores a value under a key, in the column family that `family` refers to
/// or, without one, in the default family.
fn put_into(db: &Term, family: Option<&Term>, key: &Term, value: &Term, options: &Term) -> (decoded:
    Result<EngineCall, BadArgument>)
    ensures
        agrees(decoded, put_call(db@, value_view(family), key@, value@, options@)),
{
    let family = target(db, family)?;
    let key = text_copy(key)?;
    let value = bytes_copy(value)?;
    let options = decode_write_options(options)?;
    Ok(EngineCall::Put { family, key, value, options })
}

/// Removes what is stored under a key.
fn delete_from(db: &Term, family: Option<&Term>, key: &Term, options: &Term) -> (decoded: Result<
    EngineCall,
    BadArgument,
>)
    ensures
        agrees(decoded, delete_call(db@, value_view(family), key@, options@)),
{
    let family = target(db, family)?;
    let key = text_copy(key)?;
    let options = decode_write_options(options)?;
    Ok(EngineCall::Delete { family, key, options })
}

/// Reads what is stored under a key.
fn get_from(db: &Term, family: Option<&Term>, key: &Term) -> (decoded: Result<
    EngineCall,
    BadArgument,
>)
    ensures
        agrees(decoded, get_call(db@, value_view(family), key@)),
{
    let family = target(db, family)?;
    let key = text_copy(key)?;
    Ok(EngineCall::Get { family, key })
}

/// Counts the entries.
fn count_in(db: &Term, family: Option<&Term>) -> (decoded: Result<EngineCall, BadArgument>)
    ensures
        agrees(decoded, count_call(db@, value_view(family))),
{
    let family = target(db, family)?;
    Ok(EngineCall::Count { family })
}

/// Makes an iterator.
fn iterate_over(db: &Term, family: Option<&Term>, mode: &Term) -> (decoded: Result<
    EngineCall,
    BadArgument,
>)
    ensures
        agrees(decoded, iterate_call(db@, value_view(family), mode@)),
{
    let family = target(db, family)?;
    let mode = decode_iterator_mode(mode)?;
    Ok(EngineCall::Iterate { family, mode })
}

/// Stores `value` under `key` in the default column family.
pub fn put(db: &Term, key: &Term, value: &Term, options: &Term) -> (decoded: Result<
    EngineCall,
    BadArgument,
>)
    ensures
        agrees(decoded, put_call(db@, None, key@, value@, options@)),
{
    put_into(db, None, key, value, options)
}

/// Stores `value` under `key` in the column family that `family` refers to.
pub fn put_cf(db: &Term, family: &Term, key: &Term, value: &Term, options: &Term) -> (decoded:
    Result<EngineCall, BadArgument>)
    ensures
        agrees(decoded, put_call(db@, Some(family@), key@, value@, options@)),
{
    put_into(db, Some(family), key, value, options)
}

/// Removes what the default column family holds under `key`.  Where it
/// holds nothing there, the engine does nothing and reports no error.
pub fn delete(db: &Term, key: &Term, options: &Term) -> (decoded: Result<EngineCall, BadArgument>)
    ensures
        agrees(decoded, delete_call(db@, None, key@, options@)),
{
    delete_from(db, None, key, options)
}

/// Removes what the column family that `family` refers to holds under
/// `key`.
pub fn delete_cf(db: &Term, family: &Term, key: &Term, options: &Term) -> (decoded: Result<
    EngineCall,
    BadArgument,
>)
    ensures
        agrees(decoded, delete_call(db@, Some(family@), key@, options@)),
{
    delete_from(db, Some(family), key, options)
}

/// Reads what the default column family holds under `key`.
pub fn get(db: &Term, key: &Term) -> (decoded: Result<EngineCall, BadArgument>)
    ensures
        agrees(decoded, get_call(db@, None, key@)),
{
    get_from(db, None, key)
}

/// Reads what the column family that `family` refers to holds under `key`.
pub fn get_cf(db: &Term, family: &Term, key: &Term) -> (decoded: Result<EngineCall, BadArgument>)
    ensures
        agrees(decoded, get_call(db@, Some(family@), key@)),
{
    get_from(db, Some(family), key)
}

/// Counts the entries of the default column family.
pub fn count(db: &Term) -> (decoded: Result<EngineCall, BadArgument>)
    ensures
        agrees(decoded, count_call(db@, None)),
{
    count_in(db, None)
}

/// Counts the entries of the column family that `family` refers to.
pub fn count_cf(db: &Term, family: &Term) -> (decoded: Result<EngineCall, BadArgument>)
    ensures
        agrees(decoded, count_call(db@, Some(family@))),
{
    count_in(db, Some(family))
}

/// Makes an iterator over the default column family.
pub fn iterate(db: &Term, mode: &Term) -> (decoded: Result<EngineCall, BadArgument>)
    ensures
        agrees(decoded, iterate_call(db@, None, mode@)),
{
    iterate_over(db, None, mode)
}

/// Makes an iterator over the column family that `family` refers to.
pub fn iterate_cf(db: &Term, family: &Term, mode: &Term) -> (decoded: Result<
    EngineCall,
    BadArgument,
>)
    ensures
        agrees(decoded, iterate_call(db@, Some(family@), mode@)),
{
    iterate_over(db, Some(family), mode)
}

} // verus!
