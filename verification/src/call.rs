//! What this layer asks of the storage engine, and under which guard.
//!
//! Every call of the host that passes the check of its arguments comes to
//! one [`EngineCall`].  The program that owns the engine performs it while
//! it holds the guard that [`EngineCall::guard`] names.

use vstd::prelude::*;
use crate::mode::{IterMode, Position};
use crate::schema::Setting;

verus! {

/// What an [`EngineCall`] stands for.
pub enum CallView {
    Open { path: Seq<u8>, options: Seq<Setting>, families: Seq<Seq<u8>> },
    CreateFamily { name: Seq<u8>, options: Seq<Setting> },
    FindFamily { name: Seq<u8> },
    Put { family: Option<Seq<u8>>, key: Seq<u8>, value: Seq<u8>, options: Seq<Setting> },
    Delete { family: Option<Seq<u8>>, key: Seq<u8>, options: Seq<Setting> },
    Get { family: Option<Seq<u8>>, key: Seq<u8> },
    Count { family: Option<Seq<u8>> },
    Iterate { family: Option<Seq<u8>>, mode: Position },
    Advance,
    Seek { mode: Position },
}

/// One request to the storage engine.
///
/// A column family is named, never pointed to: the engine looks the name up
/// in the database that the call goes to, each time.  Where `family` is
/// `None` the call goes to the default family.
#[derive(Clone, Debug, PartialEq, Eq)]
pub enum EngineCall {
    /// Open the database at `path` with the given column families, which
    /// must exist already.
    Open { path: Vec<u8>, options: Vec<Setting>, families: Vec<Vec<u8>> },
    /// Create a column family.
    CreateFamily { name: Vec<u8>, options: Vec<Setting> },
    /// Look a column family up by its name.
    FindFamily { name: Vec<u8> },
    /// Store `value` under `key`.
    Put { family: Option<Vec<u8>>, key: Vec<u8>, value: Vec<u8>, options: Vec<Setting> },
    /// Remove what is stored under `key`, if anything is.
    Delete { family: Option<Vec<u8>>, key: Vec<u8>, options: Vec<Setting> },
    /// Read what is stored under `key`.
    Get { family: Option<Vec<u8>>, key: Vec<u8> },
    /// Count the entries, by going through all of them from the least key
    /// on.  The cost grows with the number of entries.
    Count { family: Option<Vec<u8>> },
    /// Make an iterator and put it where `mode` says.
    Iterate { family: Option<Vec<u8>>, mode: IterMode },
    /// Hand out the entry that an iterator is at, and step to the next one.
    Advance,
    /// Put an iterator where `mode` says.
    Seek { mode: IterMode },
}

/// The bytes of a name, where there is one.
pub open spec fn name_view(name: Option<Vec<u8>>) -> Option<Seq<u8>> {
    match name {
        Some(bytes) => Some(bytes@),
        None => None,
    }
}

/// The bytes of each name of a sequence.
pub open spec fn names_view(names: Seq<Vec<u8>>) -> Seq<Seq<u8>> {
    Seq::new(names.len(), |i: int| names[i]@)
}

impl View for EngineCall {
    type V = CallView;

    open spec fn view(&self) -> CallView {
        match self {
            EngineCall::Open { path, options, families } => CallView::Open {
                path: path@,
                options: options@,
                families: names_view(families@),
            },
            EngineCall::CreateFamily { name, options } => CallView::CreateFamily {
                name: name@,
                options: options@,
            },
            EngineCall::FindFamily { name } => CallView::FindFamily { name: name@ },
            EngineCall::Put { family, key, value, options } => CallView::Put {
                family: name_view(*family),
                key: key@,
                value: value@,
                options: options@,
            },
            EngineCall::Delete { family, key, options } => CallView::Delete {
                family: name_view(*family),
                key: key@,
                options: options@,
            },
            EngineCall::Get { family, key } => CallView::Get { family: name_view(*family), key: key@ },
            EngineCall::Count { family } => CallView::Count { family: name_view(*family) },
            EngineCall::Iterate { family, mode } => CallView::Iterate {
                family: name_view(*family),
                mode: mode@,
            },
            EngineCall::Advance => CallView::Advance,
            EngineCall::Seek { mode } => CallView::Seek { mode: mode@ },
        }
    }
}

/// What a call holds while the engine works on it.
#[derive(Clone, Copy, Debug, PartialEq, Eq, Structural)]
pub enum Guard {
    /// Nothing: the call makes the handle that later calls are guarded by.
    Unguarded,
    /// The database's guard, shared with other readers.
    SharedDatabase,
    /// The database's guard, alone.
    ExclusiveDatabase,
    /// The iterator's own guard, alone.  The database's guard is not held.
    Cursor,
}

/// The guard that a call holds.  Calls that read the database share its
/// guard; calls that change the database, or the set of its column families,
/// hold it alone; calls on an iterator hold the iterator's guard and leave
/// the database's alone.
pub open spec fn guard_of(call: CallView) -> Guard {
    match call {
        CallView::Open { .. } => Guard::Unguarded,
        CallView::CreateFamily { .. } => Guard::ExclusiveDatabase,
        CallView::FindFamily { .. } => Guard::SharedDatabase,
        CallView::Put { .. } => Guard::ExclusiveDatabase,
        CallView::Delete { .. } => Guard::ExclusiveDatabase,
        CallView::Get { .. } => Guard::SharedDatabase,
        CallView::Count { .. } => Guard::SharedDatabase,
        CallView::Iterate { .. } => Guard::SharedDatabase,
        CallView::Advance => Guard::Cursor,
        CallView::Seek { .. } => Guard::Cursor,
    }
}

/// Whether two calls on the same database and the same iterator have to
/// wait for each other.
pub open spec fn excludes(one: Guard, other: Guard) -> bool {
    match (one, other) {
        (Guard::ExclusiveDatabase, Guard::ExclusiveDatabase) => true,
        (Guard::ExclusiveDatabase, Guard::SharedDatabase) => true,
        (Guard::SharedDatabase, Guard::ExclusiveDatabase) => true,
        (Guard::Cursor, Guard::Cursor) => true,
        _ => false,
    }
}

impl Guard {
    /// Whether a call under this guard and one under the other, on the same
    /// database and the same iterator, have to wait for each other.
    pub fn excludes(self, other: Guard) -> (waits: bool)
        ensures
            waits == excludes(self, other),
    {
        match (self, other) {
            (Guard::ExclusiveDatabase, Guard::ExclusiveDatabase) => true,
            (Guard::ExclusiveDatabase, Guard::SharedDatabase) => true,
            (Guard::SharedDatabase, Guard::ExclusiveDatabase) => true,
            (Guard::Cursor, Guard::Cursor) => true,
            _ => false,
        }
    }
}

impl EngineCall {
    /// The guard that the call holds while the engine works on it.
    pub fn guard(&self) -> (guard: Guard)
        ensures
            guard == guard_of(self@),
    {
        match self {
            EngineCall::Open { .. } => Guard::Unguarded,
            EngineCall::CreateFamily { .. } => Guard::ExclusiveDatabase,
            EngineCall::FindFamily { .. } => Guard::SharedDatabase,
            EngineCall::Put { .. } => Guard::ExclusiveDatabase,
            EngineCall::Delete { .. } => Guard::ExclusiveDatabase,
            EngineCall::Get { .. } => Guard::SharedDatabase,
            EngineCall::Count { .. } => Guard::SharedDatabase,
            EngineCall::Iterate { .. } => Guard::SharedDatabase,
            EngineCall::Advance => Guard::Cursor,
            EngineCall::Seek { .. } => Guard::Cursor,
        }
    }
}

/// Calls that only read the database never wait for each other, and a call
/// on an iterator never waits for a call on the database.
pub proof fn readers_do_not_wait(one: CallView, other: CallView)
    ensures
        guard_of(one) == Guard::SharedDatabase && guard_of(other) == Guard::SharedDatabase
            ==> !excludes(guard_of(one), guard_of(other)),
        guard_of(one) == Guard::Cursor && guard_of(other) != Guard::Cursor ==> !excludes(
            guard_of(one),
            guard_of(other),
        ),
{
}

/// A call that changes the database waits for every other call on it, and
/// every other call on it waits for that call.
pub proof fn writers_wait(one: CallView, other: CallView)
    requires
        guard_of(one) == Guard::ExclusiveDatabase,
        guard_of(other) == Guard::SharedDatabase || guard_of(other) == Guard::ExclusiveDatabase,
    ensures
        excludes(guard_of(one), guard_of(other)),
        excludes(guard_of(other), guard_of(one)),
{
}

} // verus!
