//! Engine options, read from a map of the host.
//!
//! An option bag is a sequence of [`Setting`]s.  It is built afresh for each
//! call from the map that the call was given: for every key of the schema
//! that the map holds, one setting, in the schema's order.  Keys that the
//! schema does not know are passed over; a known key with a value of the
//! wrong shape fails the whole map, so that no bag is ever applied in part.

use vstd::prelude::*;
use vstd::string::*;
use crate::schema::{
    Compression, Datum, Kind, OptionKey, Setting, database_keys, database_schema,
    names_are_distinct, write_keys, write_schema,
};
use crate::term::{BadArgument, Term, Value, atom, find, lookup, pairs, view_of_entries};

verus! {

/// The compression algorithm that a value names.
pub open spec fn compression_of(value: Value) -> Option<Compression> {
    if value == atom("none") {
        Some(Compression::Uncompressed)
    } else if value == atom("snappy") {
        Some(Compression::Snappy)
    } else if value == atom("zlib") {
        Some(Compression::Zlib)
    } else if value == atom("bzip2") {
        Some(Compression::Bz2)
    } else if value == atom("lz4") {
        Some(Compression::Lz4)
    } else if value == atom("lz4h") {
        Some(Compression::Lz4hc)
    } else {
        None
    }
}

/// What a value says where a flag is expected.
pub open spec fn flag_of(value: Value) -> Option<bool> {
    if value == atom("true") {
        Some(true)
    } else if value == atom("false") {
        Some(false)
    } else {
        None
    }
}

/// The value of an option of the given kind that a value of the host stands
/// for, if it has the shape that the kind asks for.
pub open spec fn datum_of(kind: Kind, value: Value) -> Option<Datum> {
    match kind {
        Kind::Flag => match flag_of(value) {
            Some(flag) => Some(Datum::Flag(flag)),
            None => None,
        },
        Kind::Count => match value {
            Value::Integer(i) => if i32::MIN <= i <= i32::MAX {
                Some(Datum::Count(i as i32))
            } else {
                None
            },
            _ => None,
        },
        Kind::Size => match value {
            Value::Integer(i) => if 0 <= i <= u64::MAX {
                Some(Datum::Size(i as u64))
            } else {
                None
            },
            _ => None,
        },
        Kind::Codec => match compression_of(value) {
            Some(compression) => Some(Datum::Codec(compression)),
            None => None,
        },
    }
}

/// The option bag that the entries of a map give for the keys of a schema:
/// one setting for each key that the map holds, in the schema's order, or
/// nothing where one of them holds a value of the wrong shape.
pub open spec fn settings_in(entries: Seq<(Value, Value)>, keys: Seq<OptionKey>) -> Option<
    Seq<Setting>,
>
    decreases keys.len(),
{
    if keys.len() == 0 {
        Some(Seq::empty())
    } else {
        let key = keys.last();
        match settings_in(entries, keys.drop_last()) {
            None => None,
            Some(earlier) => match lookup(entries, atom(key.name())) {
                None => Some(earlier),
                Some(value) => match datum_of(key.kind(), value) {
                    None => None,
                    Some(datum) => Some(earlier.push(Setting { key, value: datum })),
                },
            },
        }
    }
}

/// The option bag that a value of the host gives for a schema.  Only a map
/// gives one.
pub open spec fn settings_of(value: Value, schema: Seq<OptionKey>) -> Option<Seq<Setting>> {
    match value {
        Value::Mapping(entries) => settings_in(entries, schema),
        _ => None,
    }
}

/// Reads the name of a compression algorithm.  Any other value is refused:
/// no algorithm is ever taken by default.
pub fn decode_compression(term: &Term) -> (decoded: Result<Compression, BadArgument>)
    ensures
        match compression_of(term@) {
            Some(compression) => decoded == Ok::<Compression, BadArgument>(compression),
            None => decoded is Err,
        },
{
    if term.is_atom("none") {
        Ok(Compression::Uncompressed)
    } else if term.is_atom("snappy") {
        Ok(Compression::Snappy)
    } else if term.is_atom("zlib") {
        Ok(Compression::Zlib)
    } else if term.is_atom("bzip2") {
        Ok(Compression::Bz2)
    } else if term.is_atom("lz4") {
        Ok(Compression::Lz4)
    } else if term.is_atom("lz4h") {
        Ok(Compression::Lz4hc)
    } else {
        Err(BadArgument)
    }
}

/// Reads the value of an option of the given kind.
pub fn decode_datum(kind: Kind, term: &Term) -> (decoded: Result<Datum, BadArgument>)
    ensures
        match datum_of(kind, term@) {
            Some(datum) => decoded == Ok::<Datum, BadArgument>(datum),
            None => decoded is Err,
        },
{
    match kind {
        Kind::Flag => {
            if term.is_atom("true") {
                Ok(Datum::Flag(true))
            } else if term.is_atom("false") {
                Ok(Datum::Flag(false))
            } else {
                Err(BadArgument)
            }
        },
        Kind::Count => match term {
            Term::Integer(i) => {
                if -2147483648 <= *i && *i <= 2147483647 {
                    Ok(Datum::Count(*i as i32))
                } else {
                    Err(BadArgument)
                }
            },
            _ => Err(BadArgument),
        },
        Kind::Size => match term {
            Term::Integer(i) => {
                if 0 <= *i && *i <= 18446744073709551615 {
                    Ok(Datum::Size(*i as u64))
                } else {
                    Err(BadArgument)
                }
            },
            _ => Err(BadArgument),
        },
        Kind::Codec => match decode_compression(term) {
            Ok(compression) => Ok(Datum::Codec(compression)),
            Err(refusal) => Err(refusal),
        },
    }
}

/// A bag that a part of the schema does not give, the whole schema does not
/// give either.
pub proof fn refusal_stays(entries: Seq<(Value, Value)>, keys: Seq<OptionKey>, n: int)
    requires
        0 <= n <= keys.len(),
        settings_in(entries, keys.take(n)) is None,
    ensures
        settings_in(entries, keys) is None,
    decreases keys.len() - n,
{
    if n == keys.len() {
        assert(keys.take(n) =~= keys);
    } else {
        assert(keys.take(n + 1).drop_last() =~= keys.take(n));
        refusal_stays(entries, keys, n + 1);
    }
}

/// Reads the option bag that a map gives for a schema.
///
/// Every key of the schema that the map holds gives one setting, in the
/// schema's order.  What else the map holds is passed over.  A value that is
/// no map, or a map in which a key of the schema holds a value of the wrong
/// shape, is refused as a whole.
pub fn decode_options(term: &Term, schema: &Vec<OptionKey>) -> (decoded: Result<
    Vec<Setting>,
    BadArgument,
>)
    ensures
        match settings_of(term@, schema@) {
            Some(settings) => decoded is Ok && decoded.unwrap()@ == settings,
            None => decoded is Err,
        },
{
    match term {
        Term::Mapping(entries) => {
            proof {
                view_of_entries(*entries);
            }
            let mut settings: Vec<Setting> = Vec::new();
            let mut i: usize = 0;
            while i < schema.len()
                invariant
                    i <= schema@.len(),
                    term@ == Value::Mapping(pairs(entries@)),
                    settings_in(pairs(entries@), schema@.take(i as int)) == Some(settings@),
                decreases schema@.len() - i,
            {
                let key = schema[i];
                proof {
                    assert(schema@.take(i + 1).drop_last() =~= schema@.take(i as int));
                    assert(schema@.take(i + 1).last() == key);
                }
                match find(entries, key.name()) {
                    None => {},
                    Some(value) => match decode_datum(key.kind(), value) {
                        Ok(datum) => {
                            settings.push(Setting { key, value: datum });
                        },
                        Err(refusal) => {
                            proof {
                                refusal_stays(pairs(entries@), schema@, i + 1);
                            }
                            return Err(refusal);
                        },
                    },
                }
                i += 1;
            }
            proof {
                assert(schema@.take(i as int) =~= schema@);
            }
            Ok(settings)
        },
        _ => Err(BadArgument),
    }
}

/// Reads the options of a database or of a column family.
pub fn decode_db_options(term: &Term) -> (decoded: Result<Vec<Setting>, BadArgument>)
    ensures
        match settings_of(term@, database_schema()) {
            Some(settings) => decoded is Ok && decoded.unwrap()@ == settings,
            None => decoded is Err,
        },
{
    let schema = database_keys();
    decode_options(term, &schema)
}

/// Reads the options of a single write.
pub fn decode_write_options(term: &Term) -> (decoded: Result<Vec<Setting>, BadArgument>)
    ensures
        match settings_of(term@, write_schema()) {
            Some(settings) => decoded is Ok && decoded.unwrap()@ == settings,
            None => decoded is Err,
        },
{
    let schema = write_keys();
    decode_options(term, &schema)
}

/// Whether the entries hold a value of the wrong shape under the key.
pub open spec fn malformed(entries: Seq<(Value, Value)>, key: OptionKey) -> bool {
    match lookup(entries, atom(key.name())) {
        Some(value) => datum_of(key.kind(), value) is None,
        None => false,
    }
}

/// A map is refused exactly when one of the schema's keys holds a value of
/// the wrong shape in it.
pub proof fn refused_iff_malformed(entries: Seq<(Value, Value)>, keys: Seq<OptionKey>)
    ensures
        settings_in(entries, keys) is None <==> exists|i: int|
            0 <= i < keys.len() && malformed(entries, #[trigger] keys[i]),
    decreases keys.len(),
{
    if keys.len() > 0 {
        let earlier = keys.drop_last();
        refused_iff_malformed(entries, earlier);
        if settings_in(entries, keys) is None {
            if settings_in(entries, earlier) is None {
                let i = choose|i: int| 0 <= i < earlier.len() && malformed(entries, #[trigger] earlier[i]);
                assert(keys[i] == earlier[i]);
            } else {
                assert(malformed(entries, keys[keys.len() - 1]));
            }
        }
        if exists|i: int| 0 <= i < keys.len() && malformed(entries, #[trigger] keys[i]) {
            let i = choose|i: int| 0 <= i < keys.len() && malformed(entries, #[trigger] keys[i]);
            if i < keys.len() - 1 {
                assert(earlier[i] == keys[i]);
            }
        }
    }
}

/// A map that holds none of the schema's keys gives the empty bag: every
/// option keeps the engine's default.
pub proof fn absent_keys_keep_defaults(entries: Seq<(Value, Value)>, keys: Seq<OptionKey>)
    requires
        forall|i: int| 0 <= i < keys.len() ==> lookup(entries, atom((#[trigger] keys[i]).name())) is None,
    ensures
        settings_in(entries, keys) == Some(Seq::<Setting>::empty()),
    decreases keys.len(),
{
    if keys.len() > 0 {
        let earlier = keys.drop_last();
        assert forall|i: int| 0 <= i < earlier.len() implies lookup(
            entries,
            atom((#[trigger] earlier[i]).name()),
        ) is None by {
            assert(earlier[i] == keys[i]);
        }
        absent_keys_keep_defaults(entries, earlier);
        assert(lookup(entries, atom(keys[keys.len() - 1].name())) is None);
    }
}

/// The bag depends on nothing but what the map holds under the schema's
/// keys.
pub proof fn only_schema_keys_count(
    entries: Seq<(Value, Value)>,
    others: Seq<(Value, Value)>,
    keys: Seq<OptionKey>,
)
    requires
        forall|i: int|
            0 <= i < keys.len() ==> lookup(entries, atom((#[trigger] keys[i]).name())) == lookup(
                others,
                atom(keys[i].name()),
            ),
    ensures
        settings_in(entries, keys) == settings_in(others, keys),
    decreases keys.len(),
{
    if keys.len() > 0 {
        let earlier = keys.drop_last();
        assert forall|i: int| 0 <= i < earlier.len() implies lookup(
            entries,
            atom((#[trigger] earlier[i]).name()),
        ) == lookup(others, atom(earlier[i].name())) by {
            assert(earlier[i] == keys[i]);
        }
        only_schema_keys_count(entries, others, earlier);
        let last = keys[keys.len() - 1];
        assert(lookup(entries, atom(last.name())) == lookup(others, atom(last.name())));
    }
}

/// An entry under another key does not change what a key is found to hold.
pub proof fn lookup_passes_other_keys(
    entries: Seq<(Value, Value)>,
    at: int,
    entry: (Value, Value),
    key: Value,
)
    requires
        0 <= at <= entries.len(),
        entry.0 != key,
    ensures
        lookup(entries.insert(at, entry), key) == lookup(entries, key),
    decreases entries.len(),
{
    let longer = entries.insert(at, entry);
    if at == 0 {
        assert(longer.skip(1) =~= entries);
    } else {
        assert(longer[0] == entries[0]);
        if entries[0].0 != key {
            assert(longer.skip(1) =~= entries.skip(1).insert(at - 1, entry));
            lookup_passes_other_keys(entries.skip(1), at - 1, entry, key);
        }
    }
}

/// A key that the schema does not know is passed over: wherever its entry
/// stands in the map, the bag is the same with it and without it.
pub proof fn unknown_keys_are_passed_over(
    entries: Seq<(Value, Value)>,
    at: int,
    entry: (Value, Value),
    keys: Seq<OptionKey>,
)
    requires
        0 <= at <= entries.len(),
        forall|i: int| 0 <= i < keys.len() ==> entry.0 != atom((#[trigger] keys[i]).name()),
    ensures
        settings_in(entries.insert(at, entry), keys) == settings_in(entries, keys),
{
    assert forall|i: int| 0 <= i < keys.len() implies lookup(
        entries.insert(at, entry),
        atom((#[trigger] keys[i]).name()),
    ) == lookup(entries, atom(keys[i].name())) by {
        lookup_passes_other_keys(entries, at, entry, atom(keys[i].name()));
    }
    only_schema_keys_count(entries.insert(at, entry), entries, keys);
}

/// Every setting of a bag is for a key of the schema, holds a value of the
/// shape that its key asks for, and holds what the map has under that key.
pub proof fn settings_follow_the_schema(entries: Seq<(Value, Value)>, keys: Seq<OptionKey>)
    requires
        settings_in(entries, keys) is Some,
    ensures
        forall|j: int|
            #![trigger settings_in(entries, keys).unwrap()[j]]
            0 <= j < settings_in(entries, keys).unwrap().len() ==> {
                let setting = settings_in(entries, keys).unwrap()[j];
                &&& keys.contains(setting.key)
                &&& setting.value.kind() == setting.key.kind()
                &&& lookup(entries, atom(setting.key.name())) is Some
                &&& datum_of(
                    setting.key.kind(),
                    lookup(entries, atom(setting.key.name())).unwrap(),
                ) == Some(setting.value)
            },
    decreases keys.len(),
{
    if keys.len() > 0 {
        let earlier = keys.drop_last();
        let last = keys[keys.len() - 1];
        settings_follow_the_schema(entries, earlier);
        let before = settings_in(entries, earlier).unwrap();
        let all = settings_in(entries, keys).unwrap();
        assert forall|j: int| 0 <= j < all.len() implies {
            let setting = #[trigger] all[j];
            &&& keys.contains(setting.key)
            &&& setting.value.kind() == setting.key.kind()
            &&& lookup(entries, atom(setting.key.name())) is Some
            &&& datum_of(setting.key.kind(), lookup(entries, atom(setting.key.name())).unwrap())
                == Some(setting.value)
        } by {
            if j < before.len() {
                assert(all[j] == before[j]);
                let i = choose|i: int| 0 <= i < earlier.len() && earlier[i] == before[j].key;
                assert(keys[i] == earlier[i]);
            } else {
                assert(all[j].key == last);
            }
        }
    }
}

/// Whether a bag holds a setting for the key.
pub open spec fn sets(settings: Seq<Setting>, key: OptionKey) -> bool {
    exists|j: int| 0 <= j < settings.len() && (#[trigger] settings[j]).key == key
}

/// Whether two settings of a bag stand as their keys stand in the schema.
pub open spec fn in_order(settings: Seq<Setting>, keys: Seq<OptionKey>, first: int, second: int) -> bool {
    exists|i: int, k: int|
        0 <= i < k < keys.len() && #[trigger] keys[i] == settings[first].key && #[trigger] keys[k]
            == settings[second].key
}

/// A bag holds a setting for every key of the schema that the map holds, and
/// its settings stand in the schema's order.
pub proof fn present_keys_are_set_in_order(entries: Seq<(Value, Value)>, keys: Seq<OptionKey>)
    requires
        settings_in(entries, keys) is Some,
    ensures
        forall|i: int|
            0 <= i < keys.len() && lookup(entries, atom((#[trigger] keys[i]).name())) is Some ==> sets(
                settings_in(entries, keys).unwrap(),
                keys[i],
            ),
        forall|first: int, second: int|
            0 <= first < second < settings_in(entries, keys).unwrap().len() ==> #[trigger] in_order(
                settings_in(entries, keys).unwrap(),
                keys,
                first,
                second,
            ),
    decreases keys.len(),
{
    if keys.len() > 0 {
        let earlier = keys.drop_last();
        let last = keys[keys.len() - 1];
        present_keys_are_set_in_order(entries, earlier);
        settings_follow_the_schema(entries, earlier);
        let before = settings_in(entries, earlier).unwrap();
        let all = settings_in(entries, keys).unwrap();
        assert forall|i: int|
            0 <= i < keys.len() && lookup(
                entries,
                atom((#[trigger] keys[i]).name()),
            ) is Some implies sets(all, keys[i]) by {
            if i < keys.len() - 1 {
                assert(earlier[i] == keys[i]);
                let j = choose|j: int| 0 <= j < before.len() && (#[trigger] before[j]).key == keys[i];
                assert(all[j] == before[j]);
            } else {
                assert(all[all.len() - 1].key == last);
            }
        }
        assert forall|first: int, second: int| 0 <= first < second < all.len() implies #[trigger] in_order(
            all,
            keys,
            first,
            second,
        ) by {
            if second < before.len() {
                assert(in_order(before, earlier, first, second));
                let (i, k) = choose|i: int, k: int|
                    0 <= i < k < earlier.len() && #[trigger] earlier[i] == before[first].key
                        && #[trigger] earlier[k] == before[second].key;
                assert(keys[i] == earlier[i] && keys[k] == earlier[k]);
                assert(all[first] == before[first] && all[second] == before[second]);
            } else {
                assert(all[first] == before[first]);
                assert(earlier.contains(before[first].key));
                let i = choose|i: int| 0 <= i < earlier.len() && earlier[i] == before[first].key;
                assert(keys[i] == earlier[i]);
                assert(keys[keys.len() - 1] == all[second].key);
            }
        }
    }
}

/// One entry of a map sets one option at most: the names of the options are
/// distinct, so no entry is read twice.
pub proof fn an_entry_sets_one_option(entry: (Value, Value), keys: Seq<OptionKey>)
    requires
        keys.no_duplicates(),
        settings_in(seq![entry], keys) is Some,
    ensures
        settings_in(seq![entry], keys).unwrap().len() <= 1,
{
    let entries = seq![entry];
    let all = settings_in(entries, keys).unwrap();
    if all.len() >= 2 {
        present_keys_are_set_in_order(entries, keys);
        settings_follow_the_schema(entries, keys);
        assert(in_order(all, keys, 0, 1));
        let (i, k) = choose|i: int, k: int|
            0 <= i < k < keys.len() && #[trigger] keys[i] == all[0].key && #[trigger] keys[k]
                == all[1].key;
        assert(keys[i] != keys[k]);
        names_are_distinct(all[0].key, all[1].key);
        let one = atom(all[0].key.name());
        let other = atom(all[1].key.name());
        assert(lookup(entries, one) is Some);
        assert(lookup(entries, other) is Some);
        assert(entries.skip(1).len() == 0);
        assert(lookup(entries.skip(1), one) is None);
        assert(lookup(entries.skip(1), other) is None);
        assert(entries[0].0 == one);
        assert(entries[0].0 == other);
    }
}

} // verus!
