use rox::call::{EngineCall, Guard};
use rox::mode::{Direction, IterMode};
use rox::ops::{
    cf_handle, count, count_cf, create_cf, delete, delete_cf, get, get_cf, iterate, iterate_cf,
    open, put, put_cf,
};
use rox::schema::{Compression, Datum, OptionKey, Setting};
use rox::term::{BadArgument, Term};

fn atom(name: &str) -> Term {
    Term::Atom(name.as_bytes().to_vec())
}

fn binary(bytes: &[u8]) -> Term {
    Term::Binary(bytes.to_vec())
}

fn map(entries: Vec<(&str, Term)>) -> Term {
    Term::Mapping(entries.into_iter().map(|(k, v)| (atom(k), v)).collect())
}

fn no_options() -> Term {
    Term::Mapping(vec![])
}

fn family(name: &str) -> Term {
    Term::Family(name.as_bytes().to_vec())
}

#[test]
fn open_takes_a_path_options_and_families() {
    let call = open(
        &binary(b"/tmp/db"),
        &map(vec![("create_if_missing", atom("true")), ("compression_type", atom("lz4h"))]),
        &Term::List(vec![binary(b"users"), binary(b"orders")]),
    );
    assert_eq!(
        call,
        Ok(EngineCall::Open {
            path: b"/tmp/db".to_vec(),
            options: vec![
                Setting { key: OptionKey::CreateIfMissing, value: Datum::Flag(true) },
                Setting { key: OptionKey::CompressionType, value: Datum::Codec(Compression::Lz4hc) },
            ],
            families: vec![b"users".to_vec(), b"orders".to_vec()],
        })
    );
}

#[test]
fn open_with_nothing_set() {
    assert_eq!(
        open(&binary(b"db"), &no_options(), &Term::List(vec![])),
        Ok(EngineCall::Open { path: b"db".to_vec(), options: vec![], families: vec![] })
    );
}

#[test]
fn open_refuses_malformed_arguments() {
    let families = Term::List(vec![]);
    assert_eq!(open(&atom("db"), &no_options(), &families), Err(BadArgument));
    assert_eq!(open(&binary(&[0xc3, 0x28]), &no_options(), &families), Err(BadArgument));
    assert_eq!(open(&binary(b"db"), &Term::List(vec![]), &families), Err(BadArgument));
    assert_eq!(
        open(&binary(b"db"), &map(vec![("num_levels", atom("three"))]), &families),
        Err(BadArgument)
    );
    assert_eq!(open(&binary(b"db"), &no_options(), &no_options()), Err(BadArgument));
    assert_eq!(open(&binary(b"db"), &no_options(), &binary(b"users")), Err(BadArgument));
    assert_eq!(
        open(&binary(b"db"), &no_options(), &Term::List(vec![binary(b"users"), atom("orders")])),
        Err(BadArgument)
    );
    assert_eq!(
        open(&binary(b"db"), &no_options(), &Term::List(vec![binary(&[0x80])])),
        Err(BadArgument)
    );
}

#[test]
fn create_cf_takes_a_name_and_options() {
    assert_eq!(
        create_cf(&Term::Database, &binary(b"users"), &map(vec![("num_levels", Term::Integer(3))])),
        Ok(EngineCall::CreateFamily {
            name: b"users".to_vec(),
            options: vec![Setting { key: OptionKey::NumLevels, value: Datum::Count(3) }],
        })
    );
    assert_eq!(
        create_cf(&Term::Database, &binary(b"users"), &no_options()),
        Ok(EngineCall::CreateFamily { name: b"users".to_vec(), options: vec![] })
    );
}

#[test]
fn create_cf_refuses_malformed_arguments() {
    assert_eq!(create_cf(&Term::Cursor, &binary(b"users"), &no_options()), Err(BadArgument));
    assert_eq!(create_cf(&Term::Database, &atom("users"), &no_options()), Err(BadArgument));
    assert_eq!(create_cf(&Term::Database, &binary(b"users"), &atom("none")), Err(BadArgument));
    assert_eq!(
        create_cf(&Term::Database, &binary(b"users"), &map(vec![("use_fsync", Term::Integer(1))])),
        Err(BadArgument)
    );
}

#[test]
fn cf_handle_takes_a_name() {
    assert_eq!(
        cf_handle(&Term::Database, &binary(b"users")),
        Ok(EngineCall::FindFamily { name: b"users".to_vec() })
    );
    assert_eq!(cf_handle(&family("users"), &binary(b"users")), Err(BadArgument));
    assert_eq!(cf_handle(&Term::Database, &Term::Integer(1)), Err(BadArgument));
    assert_eq!(cf_handle(&Term::Database, &binary(&[0xfe])), Err(BadArgument));
}

#[test]
fn put_hands_key_and_value_on_unchanged() {
    assert_eq!(
        put(&Term::Database, &binary(b"k"), &binary(&[0, 0xff, 7]), &no_options()),
        Ok(EngineCall::Put {
            family: None,
            key: b"k".to_vec(),
            value: vec![0, 0xff, 7],
            options: vec![],
        })
    );
    assert_eq!(
        put(&Term::Database, &binary(b""), &binary(b""), &no_options()),
        Ok(EngineCall::Put { family: None, key: vec![], value: vec![], options: vec![] })
    );
}

#[test]
fn put_reads_its_write_options_from_the_options_argument() {
    assert_eq!(
        put(
            &Term::Database,
            &binary(b"k"),
            &binary(b"v"),
            &map(vec![("sync", atom("true")), ("disable_wal", atom("false"))]),
        ),
        Ok(EngineCall::Put {
            family: None,
            key: b"k".to_vec(),
            value: b"v".to_vec(),
            options: vec![
                Setting { key: OptionKey::Sync, value: Datum::Flag(true) },
                Setting { key: OptionKey::DisableWal, value: Datum::Flag(false) },
            ],
        })
    );
    assert_eq!(
        put_cf(
            &Term::Database,
            &family("users"),
            &binary(b"k"),
            &binary(b"v"),
            &map(vec![("disable_wal", atom("true"))]),
        ),
        Ok(EngineCall::Put {
            family: Some(b"users".to_vec()),
            key: b"k".to_vec(),
            value: b"v".to_vec(),
            options: vec![Setting { key: OptionKey::DisableWal, value: Datum::Flag(true) }],
        })
    );
}

#[test]
fn put_refuses_malformed_arguments() {
    let k = binary(b"k");
    let v = binary(b"v");
    assert_eq!(put(&Term::Other, &k, &v, &no_options()), Err(BadArgument));
    assert_eq!(put(&Term::Cursor, &k, &v, &no_options()), Err(BadArgument));
    assert_eq!(put(&Term::Database, &atom("k"), &v, &no_options()), Err(BadArgument));
    assert_eq!(put(&Term::Database, &binary(&[0xff]), &v, &no_options()), Err(BadArgument));
    assert_eq!(put(&Term::Database, &k, &atom("v"), &no_options()), Err(BadArgument));
    assert_eq!(put(&Term::Database, &k, &Term::Integer(1), &no_options()), Err(BadArgument));
    assert_eq!(put(&Term::Database, &k, &v, &Term::List(vec![])), Err(BadArgument));
    assert_eq!(put(&Term::Database, &k, &v, &map(vec![("sync", atom("no"))])), Err(BadArgument));
    assert_eq!(put_cf(&Term::Database, &Term::Database, &k, &v, &no_options()), Err(BadArgument));
    assert_eq!(put_cf(&Term::Database, &binary(b"users"), &k, &v, &no_options()), Err(BadArgument));
    assert_eq!(put_cf(&family("users"), &family("users"), &k, &v, &no_options()), Err(BadArgument));
}

#[test]
fn a_value_need_not_be_text() {
    assert_eq!(
        put(&Term::Database, &binary(b"k"), &binary(&[0xff, 0xfe]), &no_options()),
        Ok(EngineCall::Put { family: None, key: b"k".to_vec(), value: vec![0xff, 0xfe], options: vec![] })
    );
}

#[test]
fn delete_names_its_key() {
    assert_eq!(
        delete(&Term::Database, &binary(b"k"), &no_options()),
        Ok(EngineCall::Delete { family: None, key: b"k".to_vec(), options: vec![] })
    );
    assert_eq!(
        delete_cf(&Term::Database, &family("users"), &binary(b"k"), &map(vec![("sync", atom("true"))])),
        Ok(EngineCall::Delete {
            family: Some(b"users".to_vec()),
            key: b"k".to_vec(),
            options: vec![Setting { key: OptionKey::Sync, value: Datum::Flag(true) }],
        })
    );
}

#[test]
fn delete_refuses_malformed_arguments() {
    assert_eq!(delete(&Term::Integer(0), &binary(b"k"), &no_options()), Err(BadArgument));
    assert_eq!(delete(&Term::Database, &Term::List(vec![]), &no_options()), Err(BadArgument));
    assert_eq!(delete(&Term::Database, &binary(b"k"), &atom("sync")), Err(BadArgument));
    assert_eq!(
        delete(&Term::Database, &binary(b"k"), &map(vec![("disable_wal", Term::Integer(0))])),
        Err(BadArgument)
    );
    assert_eq!(
        delete_cf(&Term::Database, &Term::Cursor, &binary(b"k"), &no_options()),
        Err(BadArgument)
    );
}

#[test]
fn get_names_its_key() {
    assert_eq!(
        get(&Term::Database, &binary(b"k")),
        Ok(EngineCall::Get { family: None, key: b"k".to_vec() })
    );
    assert_eq!(
        get_cf(&Term::Database, &family("users"), &binary(b"k")),
        Ok(EngineCall::Get { family: Some(b"users".to_vec()), key: b"k".to_vec() })
    );
    assert_eq!(get(&Term::Cursor, &binary(b"k")), Err(BadArgument));
    assert_eq!(get(&Term::Database, &atom("k")), Err(BadArgument));
    assert_eq!(get(&Term::Database, &binary(&[0xc0])), Err(BadArgument));
    assert_eq!(get_cf(&Term::Database, &atom("users"), &binary(b"k")), Err(BadArgument));
}

#[test]
fn count_names_its_family() {
    assert_eq!(count(&Term::Database), Ok(EngineCall::Count { family: None }));
    assert_eq!(
        count_cf(&Term::Database, &family("users")),
        Ok(EngineCall::Count { family: Some(b"users".to_vec()) })
    );
    assert_eq!(count(&family("users")), Err(BadArgument));
    assert_eq!(count_cf(&Term::Database, &Term::Database), Err(BadArgument));
    assert_eq!(count_cf(&Term::Other, &family("users")), Err(BadArgument));
}

#[test]
fn iterate_takes_a_mode() {
    assert_eq!(
        iterate(&Term::Database, &atom("start")),
        Ok(EngineCall::Iterate { family: None, mode: IterMode::Start })
    );
    assert_eq!(
        iterate_cf(&Term::Database, &family("users"), &atom("end")),
        Ok(EngineCall::Iterate { family: Some(b"users".to_vec()), mode: IterMode::End })
    );
    assert_eq!(
        iterate(&Term::Database, &Term::Tuple(vec![atom("from"), binary(b"b"), atom("reverse")])),
        Ok(EngineCall::Iterate {
            family: None,
            mode: IterMode::From(b"b".to_vec(), Direction::Reverse),
        })
    );
    assert_eq!(iterate(&Term::Database, &atom("middle")), Err(BadArgument));
    assert_eq!(iterate(&Term::Cursor, &atom("start")), Err(BadArgument));
    assert_eq!(iterate_cf(&Term::Database, &binary(b"users"), &atom("start")), Err(BadArgument));
}

#[test]
fn each_call_has_its_guard() {
    let key = b"k".to_vec();
    let users = Some(b"users".to_vec());
    assert_eq!(
        EngineCall::Open { path: b"db".to_vec(), options: vec![], families: vec![] }.guard(),
        Guard::Unguarded
    );
    assert_eq!(
        EngineCall::CreateFamily { name: b"users".to_vec(), options: vec![] }.guard(),
        Guard::ExclusiveDatabase
    );
    assert_eq!(EngineCall::FindFamily { name: b"users".to_vec() }.guard(), Guard::SharedDatabase);
    assert_eq!(
        EngineCall::Put { family: None, key: key.clone(), value: vec![], options: vec![] }.guard(),
        Guard::ExclusiveDatabase
    );
    assert_eq!(
        EngineCall::Delete { family: users.clone(), key: key.clone(), options: vec![] }.guard(),
        Guard::ExclusiveDatabase
    );
    assert_eq!(EngineCall::Get { family: None, key: key.clone() }.guard(), Guard::SharedDatabase);
    assert_eq!(EngineCall::Count { family: users.clone() }.guard(), Guard::SharedDatabase);
    assert_eq!(
        EngineCall::Iterate { family: None, mode: IterMode::Start }.guard(),
        Guard::SharedDatabase
    );
    assert_eq!(EngineCall::Advance.guard(), Guard::Cursor);
    assert_eq!(EngineCall::Seek { mode: IterMode::End }.guard(), Guard::Cursor);
}

#[test]
fn guards_exclude_as_readers_and_writers_do() {
    let all = [Guard::Unguarded, Guard::SharedDatabase, Guard::ExclusiveDatabase, Guard::Cursor];
    for one in all {
        for other in all {
            let expected = matches!(
                (one, other),
                (Guard::ExclusiveDatabase, Guard::ExclusiveDatabase)
                    | (Guard::ExclusiveDatabase, Guard::SharedDatabase)
                    | (Guard::SharedDatabase, Guard::ExclusiveDatabase)
                    | (Guard::Cursor, Guard::Cursor)
            );
            assert_eq!(one.excludes(other), expected);
            assert_eq!(one.excludes(other), other.excludes(one));
        }
    }
    assert!(!Guard::SharedDatabase.excludes(Guard::SharedDatabase));
    assert!(!Guard::Cursor.excludes(Guard::ExclusiveDatabase));
}

#[test]
fn two_gets_share_the_guard() {
    let one = get(&Term::Database, &binary(b"a")).unwrap();
    let other = get_cf(&Term::Database, &family("users"), &binary(b"a")).unwrap();
    assert_eq!(one.guard(), Guard::SharedDatabase);
    assert_eq!(other.guard(), Guard::SharedDatabase);
    assert!(!one.guard().excludes(other.guard()));
    assert!(!one.guard().excludes(one.guard()));
}

#[test]
fn a_put_and_a_get_of_one_key_take_turns() {
    let write = put(&Term::Database, &binary(b"a"), &binary(b"1"), &no_options()).unwrap();
    let read = get(&Term::Database, &binary(b"a")).unwrap();
    assert!(write.guard().excludes(read.guard()));
    assert!(read.guard().excludes(write.guard()));
    assert!(write.guard().excludes(write.guard()));
}

#[test]
fn an_iterator_does_not_hold_the_database() {
    let write = put(&Term::Database, &binary(b"a"), &binary(b"1"), &no_options()).unwrap();
    assert!(!EngineCall::Advance.guard().excludes(write.guard()));
    assert!(!write.guard().excludes(EngineCall::Seek { mode: IterMode::Start }.guard()));
    assert!(EngineCall::Advance.guard().excludes(EngineCall::Advance.guard()));
}
