//! Host values as plain data.
//!
//! The host runtime hands every call its arguments as dynamically typed
//! values and takes a value of the same kind back.  [`Term`] holds such a
//! value; [`Value`] is what it stands for in contracts.

use vstd::prelude::*;
use vstd::string::*;
use vstd::utf8::valid_utf8;

verus! {

/// What a [`Term`] stands for: the value with its byte strings as sequences
/// and its integers unbounded.
pub enum Value {
    /// A named constant of the host, by the bytes of its name.
    Atom(Seq<u8>),
    Integer(int),
    Binary(Seq<u8>),
    Tuple(Seq<Value>),
    List(Seq<Value>),
    /// The entries of a map, as pairs of key and value.
    Mapping(Seq<(Value, Value)>),
    /// A reference to an open database.
    Database,
    /// A reference to a column family, which carries the family's name.
    Family(Seq<u8>),
    /// A reference to an iterator.
    Cursor,
    /// Any value that this layer never looks into.
    Other,
}

/// Says that an argument of a call does not have the shape that the call
/// asks for.
#[derive(Clone, Copy, Debug, PartialEq, Eq, Structural)]
pub struct BadArgument;

/// A value of the host runtime.
#[derive(Debug, PartialEq, Eq)]
pub enum Term {
    /// A named constant, by the bytes of its name.
    Atom(Vec<u8>),
    /// An integer of at most 64 bits, with or without a sign.
    Integer(i128),
    Binary(Vec<u8>),
    Tuple(Vec<Term>),
    List(Vec<Term>),
    /// The entries of a map.  Where a key stands twice, the first entry
    /// counts.
    Mapping(Vec<(Term, Term)>),
    /// A reference to an open database.
    Database,
    /// A reference to a column family, which carries the family's name.
    Family(Vec<u8>),
    /// A reference to an iterator.
    Cursor,
    /// Any value that this layer never looks into.
    Other,
}

impl View for Term {
    type V = Value;

    open spec fn view(&self) -> Value
        decreases self,
    {
        match self {
            Term::Atom(name) => Value::Atom(name@),
            Term::Integer(i) => Value::Integer(*i as int),
            Term::Binary(bytes) => Value::Binary(bytes@),
            Term::Tuple(items) => Value::Tuple(
                Seq::new(
                    items@.len(),
                    |i: int|
                        if 0 <= i < items@.len() {
                            items@[i].view()
                        } else {
                            Value::Other
                        },
                ),
            ),
            Term::List(items) => Value::List(
                Seq::new(
                    items@.len(),
                    |i: int|
                        if 0 <= i < items@.len() {
                            items@[i].view()
                        } else {
                            Value::Other
                        },
                ),
            ),
            Term::Mapping(entries) => Value::Mapping(
                Seq::new(
                    entries@.len(),
                    |i: int|
                        if 0 <= i < entries@.len() {
                            (entries@[i].0.view(), entries@[i].1.view())
                        } else {
                            (Value::Other, Value::Other)
                        },
                ),
            ),
            Term::Database => Value::Database,
            Term::Family(name) => Value::Family(name@),
            Term::Cursor => Value::Cursor,
            Term::Other => Value::Other,
        }
    }
}

/// The values of a sequence of terms.
pub open spec fn values(items: Seq<Term>) -> Seq<Value> {
    Seq::new(items.len(), |i: int| items[i]@)
}

/// The values of a sequence of map entries.
pub open spec fn pairs(entries: Seq<(Term, Term)>) -> Seq<(Value, Value)> {
    Seq::new(entries.len(), |i: int| (entries[i].0@, entries[i].1@))
}

/// The atom with the given name.
pub open spec fn atom(name: &str) -> Value {
    Value::Atom(name.spec_bytes())
}

/// The value that the first entry with the given key holds, if there is one.
pub open spec fn lookup(entries: Seq<(Value, Value)>, key: Value) -> Option<Value>
    decreases entries.len(),
{
    if entries.len() == 0 {
        None
    } else if entries[0].0 == key {
        Some(entries[0].1)
    } else {
        lookup(entries.skip(1), key)
    }
}

/// A tuple and a list are what their items are.
pub proof fn view_of_items(items: Vec<Term>)
    ensures
        Term::Tuple(items)@ == Value::Tuple(values(items@)),
        Term::List(items)@ == Value::List(values(items@)),
{
    assert(Term::Tuple(items)@->Tuple_0 =~= values(items@));
    assert(Term::List(items)@->List_0 =~= values(items@));
}

/// A map is what its entries are.
pub proof fn view_of_entries(entries: Vec<(Term, Term)>)
    ensures
        Term::Mapping(entries)@ == Value::Mapping(pairs(entries@)),
{
    reveal_with_fuel(<Term as View>::view, 2);
    assert(Term::Mapping(entries)@->Mapping_0 =~= pairs(entries@));
}

/// A key that no entry of the first `n` holds is looked up among the rest.
pub proof fn lookup_skips(entries: Seq<(Value, Value)>, key: Value, n: int)
    requires
        0 <= n <= entries.len(),
        forall|i: int| 0 <= i < n ==> (#[trigger] entries[i]).0 != key,
    ensures
        lookup(entries, key) == lookup(entries.skip(n), key),
    decreases n,
{
    if n == 0 {
        assert(entries.skip(0) =~= entries);
    } else {
        lookup_skips(entries, key, n - 1);
        let rest = entries.skip(n - 1);
        assert(rest[0] == entries[n - 1]);
        assert(rest.skip(1) =~= entries.skip(n));
    }
}

/// Whether two byte strings hold the same bytes.
pub fn same_bytes(a: &[u8], b: &[u8]) -> (same: bool)
    ensures
        same == (a@ == b@),
{
    if a.len() != b.len() {
        return false;
    }
    let mut i: usize = 0;
    while i < a.len()
        invariant
            a@.len() == b@.len(),
            i <= a@.len(),
            forall|j: int| 0 <= j < i ==> a@[j] == b@[j],
        decreases a@.len() - i,
    {
        if a[i] != b[i] {
            return false;
        }
        i += 1;
    }
    assert(a@ =~= b@);
    true
}

/// A copy of a byte string.
pub fn copy_bytes(bytes: &[u8]) -> (copy: Vec<u8>)
    ensures
        copy@ == bytes@,
{
    let mut copy: Vec<u8> = Vec::new();
    let mut i: usize = 0;
    while i < bytes.len()
        invariant
            i <= bytes@.len(),
            copy@ == bytes@.take(i as int),
        decreases bytes@.len() - i,
    {
        copy.push(bytes[i]);
        assert(bytes@.take(i + 1) =~= bytes@.take(i as int).push(bytes@[i as int]));
        i += 1;
    }
    assert(bytes@.take(i as int) =~= bytes@);
    copy
}

/// Whether the bytes are well-formed UTF-8.
///
/// Calls `std::str::from_utf8`, which succeeds exactly on the byte strings
/// that are valid UTF-8; the contract says so over vstd's definition of
/// validity.
#[verifier::external_body]
pub(crate) fn is_utf8(bytes: &[u8]) -> (valid: bool)
    ensures
        valid == valid_utf8(bytes@),
{
    std::str::from_utf8(bytes).is_ok()
}

impl Term {
    /// The atom with the given name.
    pub fn atom(name: &str) -> (term: Term)
        ensures
            term@ == atom(name),
    {
        Term::Atom(copy_bytes(name.as_bytes()))
    }

    /// The tuple of two terms.
    pub fn pair(first: Term, second: Term) -> (term: Term)
        ensures
            term@ == Value::Tuple(seq![first@, second@]),
    {
        let mut items: Vec<Term> = Vec::new();
        items.push(first);
        items.push(second);
        proof {
            view_of_items(items);
            assert(values(items@) =~= seq![first@, second@]);
        }
        Term::Tuple(items)
    }

    /// Whether the term is the atom with the given name.
    pub fn is_atom(&self, name: &str) -> (yes: bool)
        ensures
            yes == (self@ == atom(name)),
    {
        match self {
            Term::Atom(own) => same_bytes(own.as_slice(), name.as_bytes()),
            _ => false,
        }
    }

    /// The bytes of the term, where it is a binary that holds UTF-8 text.
    pub fn text(&self) -> (bytes: Option<&Vec<u8>>)
        ensures
            match text_of(self@) {
                Some(text) => bytes is Some && bytes.unwrap()@ == text,
                None => bytes is None,
            },
    {
        match self {
            Term::Binary(bytes) => if is_utf8(bytes.as_slice()) {
                Some(bytes)
            } else {
                None
            },
            _ => None,
        }
    }
}

/// The bytes of a binary that holds UTF-8 text.
pub open spec fn text_of(value: Value) -> Option<Seq<u8>> {
    match value {
        Value::Binary(bytes) => if valid_utf8(bytes) {
            Some(bytes)
        } else {
            None
        },
        _ => None,
    }
}

/// The value that the first entry of a map with the given atom as its key
/// holds.
pub fn find<'a>(entries: &'a Vec<(Term, Term)>, name: &str) -> (found: Option<&'a Term>)
    ensures
        match lookup(pairs(entries@), atom(name)) {
            Some(value) => found is Some && found.unwrap()@ == value,
            None => found is None,
        },
{
    let ghost all = pairs(entries@);
    let ghost key = atom(name);
    let mut i: usize = 0;
    while i < entries.len()
        invariant
            i <= entries@.len(),
            all == pairs(entries@),
            key == atom(name),
            forall|j: int| 0 <= j < i ==> (#[trigger] all[j]).0 != key,
        decreases entries@.len() - i,
    {
        if entries[i].0.is_atom(name) {
            proof {
                lookup_skips(all, key, i as int);
                assert(all.skip(i as int)[0] == all[i as int]);
            }
            return Some(&entries[i].1);
        }
        i += 1;
    }
    proof {
        lookup_skips(all, key, i as int);
    }
    None
}

} // verus!
