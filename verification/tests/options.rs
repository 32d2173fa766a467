use rox::options::{
    decode_compression, decode_datum, decode_db_options, decode_options, decode_write_options,
};
use rox::schema::{database_keys, write_keys, Compression, Datum, Kind, OptionKey, Setting};
use rox::term::{BadArgument, Term};

fn atom(name: &str) -> Term {
    Term::Atom(name.as_bytes().to_vec())
}

fn map(entries: Vec<(&str, Term)>) -> Term {
    Term::Mapping(entries.into_iter().map(|(k, v)| (atom(k), v)).collect())
}

fn set(key: OptionKey, value: Datum) -> Setting {
    Setting { key, value }
}

#[test]
fn compression_names_are_matched_exactly() {
    assert_eq!(decode_compression(&atom("none")), Ok(Compression::Uncompressed));
    assert_eq!(decode_compression(&atom("snappy")), Ok(Compression::Snappy));
    assert_eq!(decode_compression(&atom("zlib")), Ok(Compression::Zlib));
    assert_eq!(decode_compression(&atom("bzip2")), Ok(Compression::Bz2));
    assert_eq!(decode_compression(&atom("lz4")), Ok(Compression::Lz4));
    assert_eq!(decode_compression(&atom("lz4h")), Ok(Compression::Lz4hc));
}

#[test]
fn unknown_compression_is_refused() {
    assert_eq!(decode_compression(&atom("zstd")), Err(BadArgument));
    assert_eq!(decode_compression(&atom("Snappy")), Err(BadArgument));
    assert_eq!(decode_compression(&atom("lz4hc")), Err(BadArgument));
    assert_eq!(decode_compression(&atom("")), Err(BadArgument));
    assert_eq!(decode_compression(&Term::Binary(b"snappy".to_vec())), Err(BadArgument));
    assert_eq!(decode_compression(&Term::Integer(0)), Err(BadArgument));
}

#[test]
fn flags_are_the_atoms_true_and_false() {
    assert_eq!(decode_datum(Kind::Flag, &atom("true")), Ok(Datum::Flag(true)));
    assert_eq!(decode_datum(Kind::Flag, &atom("false")), Ok(Datum::Flag(false)));
    assert_eq!(decode_datum(Kind::Flag, &atom("yes")), Err(BadArgument));
    assert_eq!(decode_datum(Kind::Flag, &Term::Integer(1)), Err(BadArgument));
    assert_eq!(decode_datum(Kind::Flag, &Term::Binary(b"true".to_vec())), Err(BadArgument));
}

#[test]
fn counts_fit_in_32_bits() {
    assert_eq!(decode_datum(Kind::Count, &Term::Integer(0)), Ok(Datum::Count(0)));
    assert_eq!(decode_datum(Kind::Count, &Term::Integer(-1)), Ok(Datum::Count(-1)));
    assert_eq!(decode_datum(Kind::Count, &Term::Integer(2147483647)), Ok(Datum::Count(i32::MAX)));
    assert_eq!(decode_datum(Kind::Count, &Term::Integer(-2147483648)), Ok(Datum::Count(i32::MIN)));
    assert_eq!(decode_datum(Kind::Count, &Term::Integer(2147483648)), Err(BadArgument));
    assert_eq!(decode_datum(Kind::Count, &Term::Integer(-2147483649)), Err(BadArgument));
    assert_eq!(decode_datum(Kind::Count, &atom("true")), Err(BadArgument));
    assert_eq!(decode_datum(Kind::Count, &Term::Other), Err(BadArgument));
}

#[test]
fn sizes_fit_in_64_bits_without_a_sign() {
    assert_eq!(decode_datum(Kind::Size, &Term::Integer(0)), Ok(Datum::Size(0)));
    assert_eq!(decode_datum(Kind::Size, &Term::Integer(536870912)), Ok(Datum::Size(536870912)));
    assert_eq!(
        decode_datum(Kind::Size, &Term::Integer(18446744073709551615)),
        Ok(Datum::Size(u64::MAX))
    );
    assert_eq!(decode_datum(Kind::Size, &Term::Integer(18446744073709551616)), Err(BadArgument));
    assert_eq!(decode_datum(Kind::Size, &Term::Integer(-1)), Err(BadArgument));
    assert_eq!(decode_datum(Kind::Size, &Term::Binary(vec![1])), Err(BadArgument));
}

#[test]
fn codecs_are_compression_names() {
    assert_eq!(decode_datum(Kind::Codec, &atom("lz4")), Ok(Datum::Codec(Compression::Lz4)));
    assert_eq!(decode_datum(Kind::Codec, &atom("gzip")), Err(BadArgument));
}

#[test]
fn every_key_has_its_name_and_kind() {
    let expected: Vec<(&str, Kind)> = vec![
        ("total_threads", Kind::Count),
        ("optimize_level_type_compaction_memtable_memory_budget", Kind::Size),
        ("create_if_missing", Kind::Flag),
        ("compression_type", Kind::Codec),
        ("max_open_files", Kind::Count),
        ("use_fsync", Kind::Flag),
        ("bytes_per_sync", Kind::Size),
        ("disable_data_sync", Kind::Flag),
        ("allow_os_buffer", Kind::Flag),
        ("table_cache_num_shard_bits", Kind::Count),
        ("min_write_buffer_number", Kind::Count),
        ("max_write_buffer_number", Kind::Count),
        ("write_buffer_size", Kind::Size),
        ("max_bytes_for_level_base", Kind::Size),
        ("max_bytes_for_level_multiplier", Kind::Count),
        ("max_manifest_file_size", Kind::Size),
        ("target_file_size_base", Kind::Size),
        ("min_write_buffer_number_to_merge", Kind::Count),
        ("level_zero_file_num_compaction_trigger", Kind::Count),
        ("level_zero_slowdown_writes_trigger", Kind::Count),
        ("level_zero_stop_writes_trigger", Kind::Count),
        ("max_background_compactions", Kind::Count),
        ("max_background_flushes", Kind::Count),
        ("disable_auto_compactions", Kind::Flag),
        ("report_bg_io_stats", Kind::Flag),
        ("num_levels", Kind::Count),
    ];
    let keys = database_keys();
    assert_eq!(keys.len(), expected.len());
    for (key, (name, kind)) in keys.iter().zip(expected) {
        assert_eq!(key.name(), name);
        assert_eq!(key.kind(), kind);
    }
    let keys = write_keys();
    assert_eq!(keys, vec![OptionKey::Sync, OptionKey::DisableWal]);
    assert_eq!(keys[0].name(), "sync");
    assert_eq!(keys[0].kind(), Kind::Flag);
    assert_eq!(keys[1].name(), "disable_wal");
    assert_eq!(keys[1].kind(), Kind::Flag);
}

#[test]
fn empty_map_gives_the_empty_bag() {
    assert_eq!(decode_db_options(&map(vec![])), Ok(vec![]));
    assert_eq!(decode_write_options(&map(vec![])), Ok(vec![]));
}

#[test]
fn only_maps_hold_options() {
    assert_eq!(decode_db_options(&Term::List(vec![])), Err(BadArgument));
    assert_eq!(decode_db_options(&atom("create_if_missing")), Err(BadArgument));
    assert_eq!(decode_write_options(&Term::Binary(vec![1, 2])), Err(BadArgument));
    assert_eq!(decode_write_options(&Term::Tuple(vec![atom("sync"), atom("true")])), Err(BadArgument));
}

#[test]
fn settings_come_in_the_order_of_the_schema() {
    let options = map(vec![
        ("num_levels", Term::Integer(4)),
        ("max_background_compactions", Term::Integer(2)),
        ("compression_type", atom("snappy")),
        ("create_if_missing", atom("true")),
        ("total_threads", Term::Integer(8)),
        ("write_buffer_size", Term::Integer(536870912)),
    ]);
    assert_eq!(
        decode_db_options(&options),
        Ok(vec![
            set(OptionKey::TotalThreads, Datum::Count(8)),
            set(OptionKey::CreateIfMissing, Datum::Flag(true)),
            set(OptionKey::CompressionType, Datum::Codec(Compression::Snappy)),
            set(OptionKey::WriteBufferSize, Datum::Size(536870912)),
            set(OptionKey::MaxBackgroundCompactions, Datum::Count(2)),
            set(OptionKey::NumLevels, Datum::Count(4)),
        ])
    );
}

#[test]
fn every_database_option_is_read() {
    let options = map(vec![
        ("total_threads", Term::Integer(1)),
        ("optimize_level_type_compaction_memtable_memory_budget", Term::Integer(2)),
        ("create_if_missing", atom("false")),
        ("compression_type", atom("none")),
        ("max_open_files", Term::Integer(-1)),
        ("use_fsync", atom("true")),
        ("bytes_per_sync", Term::Integer(8388608)),
        ("disable_data_sync", atom("false")),
        ("allow_os_buffer", atom("true")),
        ("table_cache_num_shard_bits", Term::Integer(6)),
        ("min_write_buffer_number", Term::Integer(7)),
        ("max_write_buffer_number", Term::Integer(32)),
        ("write_buffer_size", Term::Integer(9)),
        ("max_bytes_for_level_base", Term::Integer(10)),
        ("max_bytes_for_level_multiplier", Term::Integer(11)),
        ("max_manifest_file_size", Term::Integer(12)),
        ("target_file_size_base", Term::Integer(1073741824)),
        ("min_write_buffer_number_to_merge", Term::Integer(4)),
        ("level_zero_file_num_compaction_trigger", Term::Integer(15)),
        ("level_zero_slowdown_writes_trigger", Term::Integer(0)),
        ("level_zero_stop_writes_trigger", Term::Integer(2000)),
        ("max_background_compactions", Term::Integer(18)),
        ("max_background_flushes", Term::Integer(19)),
        ("disable_auto_compactions", atom("true")),
        ("report_bg_io_stats", atom("false")),
        ("num_levels", Term::Integer(22)),
    ]);
    assert_eq!(
        decode_db_options(&options),
        Ok(vec![
            set(OptionKey::TotalThreads, Datum::Count(1)),
            set(OptionKey::MemtableBudget, Datum::Size(2)),
            set(OptionKey::CreateIfMissing, Datum::Flag(false)),
            set(OptionKey::CompressionType, Datum::Codec(Compression::Uncompressed)),
            set(OptionKey::MaxOpenFiles, Datum::Count(-1)),
            set(OptionKey::UseFsync, Datum::Flag(true)),
            set(OptionKey::BytesPerSync, Datum::Size(8388608)),
            set(OptionKey::DisableDataSync, Datum::Flag(false)),
            set(OptionKey::AllowOsBuffer, Datum::Flag(true)),
            set(OptionKey::TableCacheNumShardBits, Datum::Count(6)),
            set(OptionKey::MinWriteBufferNumber, Datum::Count(7)),
            set(OptionKey::MaxWriteBufferNumber, Datum::Count(32)),
            set(OptionKey::WriteBufferSize, Datum::Size(9)),
            set(OptionKey::MaxBytesForLevelBase, Datum::Size(10)),
            set(OptionKey::MaxBytesForLevelMultiplier, Datum::Count(11)),
            set(OptionKey::MaxManifestFileSize, Datum::Size(12)),
            set(OptionKey::TargetFileSizeBase, Datum::Size(1073741824)),
            set(OptionKey::MinWriteBufferNumberToMerge, Datum::Count(4)),
            set(OptionKey::LevelZeroFileNumCompactionTrigger, Datum::Count(15)),
            set(OptionKey::LevelZeroSlowdownWritesTrigger, Datum::Count(0)),
            set(OptionKey::LevelZeroStopWritesTrigger, Datum::Count(2000)),
            set(OptionKey::MaxBackgroundCompactions, Datum::Count(18)),
            set(OptionKey::MaxBackgroundFlushes, Datum::Count(19)),
            set(OptionKey::DisableAutoCompactions, Datum::Flag(true)),
            set(OptionKey::ReportBgIoStats, Datum::Flag(false)),
            set(OptionKey::NumLevels, Datum::Count(22)),
        ])
    );
}

#[test]
fn unknown_keys_are_passed_over() {
    let options = map(vec![
        ("block_size", Term::Integer(4096)),
        ("use_fsync", atom("true")),
        ("sync", atom("not even a flag")),
        ("wal_dir", Term::Binary(b"/tmp".to_vec())),
    ]);
    assert_eq!(decode_db_options(&options), Ok(vec![set(OptionKey::UseFsync, Datum::Flag(true))]));
    let only_unknown = map(vec![("block_size", Term::Integer(4096))]);
    assert_eq!(decode_db_options(&only_unknown), Ok(vec![]));
    assert_eq!(decode_write_options(&only_unknown), Ok(vec![]));
}

#[test]
fn keys_that_are_no_atoms_are_passed_over() {
    let options = Term::Mapping(vec![
        (Term::Binary(b"use_fsync".to_vec()), atom("maybe")),
        (Term::Integer(1), Term::Integer(2)),
        (atom("num_levels"), Term::Integer(3)),
    ]);
    assert_eq!(decode_db_options(&options), Ok(vec![set(OptionKey::NumLevels, Datum::Count(3))]));
}

#[test]
fn a_malformed_value_refuses_the_whole_map() {
    let options = map(vec![
        ("create_if_missing", atom("true")),
        ("max_open_files", atom("many")),
        ("num_levels", Term::Integer(3)),
    ]);
    assert_eq!(decode_db_options(&options), Err(BadArgument));
    assert_eq!(
        decode_db_options(&map(vec![("compression_type", atom("brotli"))])),
        Err(BadArgument)
    );
    assert_eq!(
        decode_db_options(&map(vec![("bytes_per_sync", Term::Integer(-5))])),
        Err(BadArgument)
    );
    assert_eq!(
        decode_db_options(&map(vec![("total_threads", Term::Integer(1 << 40))])),
        Err(BadArgument)
    );
    assert_eq!(decode_write_options(&map(vec![("sync", Term::Integer(1))])), Err(BadArgument));
}

#[test]
fn write_options_are_sync_and_disable_wal() {
    assert_eq!(
        decode_write_options(&map(vec![("disable_wal", atom("true")), ("sync", atom("false"))])),
        Ok(vec![
            set(OptionKey::Sync, Datum::Flag(false)),
            set(OptionKey::DisableWal, Datum::Flag(true)),
        ])
    );
    assert_eq!(
        decode_write_options(&map(vec![("sync", atom("true"))])),
        Ok(vec![set(OptionKey::Sync, Datum::Flag(true))])
    );
    // a database option in a map of write options is just another unknown key
    assert_eq!(decode_write_options(&map(vec![("num_levels", atom("x"))])), Ok(vec![]));
}

#[test]
fn the_first_entry_under_a_key_counts() {
    let options = map(vec![("num_levels", Term::Integer(3)), ("num_levels", atom("seven"))]);
    assert_eq!(decode_db_options(&options), Ok(vec![set(OptionKey::NumLevels, Datum::Count(3))]));
}

#[test]
fn a_schema_of_ones_own_is_followed() {
    let schema = vec![OptionKey::NumLevels, OptionKey::Sync];
    let options = map(vec![("sync", atom("true")), ("use_fsync", atom("true")), ("num_levels", Term::Integer(1))]);
    assert_eq!(
        decode_options(&options, &schema),
        Ok(vec![set(OptionKey::NumLevels, Datum::Count(1)), set(OptionKey::Sync, Datum::Flag(true))])
    );
    assert_eq!(decode_options(&options, &Vec::new()), Ok(vec![]));
}

#[test]
fn no_two_options_share_a_name() {
    let mut all = database_keys();
    all.extend(write_keys());
    assert_eq!(all.len(), 28);
    for (i, one) in all.iter().enumerate() {
        for other in &all[i + 1..] {
            assert_ne!(one, other);
            assert_ne!(one.name(), other.name());
        }
    }
}

#[test]
fn one_entry_sets_one_option() {
    for key in database_keys() {
        let value = match key.kind() {
            Kind::Flag => atom("true"),
            Kind::Count => Term::Integer(5),
            Kind::Size => Term::Integer(5),
            Kind::Codec => atom("zlib"),
        };
        let datum = decode_datum(key.kind(), &value).unwrap();
        assert_eq!(decode_db_options(&map(vec![(key.name(), value)])), Ok(vec![set(key, datum)]));
    }
}
