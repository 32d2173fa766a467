//! The options that this layer knows.
//!
//! The schema is closed: each option has a name, under which a map of the
//! host holds it, and a kind, which says what shape its value must have.  No
//! two options share a name.

use vstd::prelude::*;
use vstd::string::*;
use crate::term::{Value, atom};

verus! {

/// The compression algorithms of the engine.
#[derive(Clone, Copy, Debug, PartialEq, Eq, Structural)]
pub enum Compression {
    Uncompressed,
    Snappy,
    Zlib,
    Bz2,
    Lz4,
    Lz4hc,
}

/// The shapes that the value of an option can have.
#[derive(Clone, Copy, Debug, PartialEq, Eq, Structural)]
pub enum Kind {
    /// One of the atoms `true` and `false`.
    Flag,
    /// An integer that fits in 32 bits, with its sign.
    Count,
    /// An integer that fits in 64 bits, without a sign.
    Size,
    /// The name of a compression algorithm.
    Codec,
}

/// The value of an option.
#[derive(Clone, Copy, Debug, PartialEq, Eq, Structural)]
pub enum Datum {
    Flag(bool),
    Count(i32),
    Size(u64),
    Codec(Compression),
}

/// The options that this layer knows.
#[derive(Clone, Copy, Debug, PartialEq, Eq, Structural)]
pub enum OptionKey {
    /// How many threads the engine may use for its background work.
    TotalThreads,
    /// The memory budget, in bytes, from which level-style compaction is tuned.
    MemtableBudget,
    /// Whether a database that does not exist yet is created.
    CreateIfMissing,
    /// The compression algorithm for table files.
    CompressionType,
    /// How many files the engine may keep open.
    MaxOpenFiles,
    /// Whether files are synced with fsync rather than fdatasync.
    UseFsync,
    /// After how many written bytes a file is synced in the background.
    BytesPerSync,
    /// Whether data files are left unsynced.
    DisableDataSync,
    /// Whether reads and writes go through the operating system's buffer.
    AllowOsBuffer,
    /// The number of shard bits of the table cache.
    TableCacheNumShardBits,
    /// The least number of write buffers kept.
    MinWriteBufferNumber,
    /// The greatest number of write buffers built up in memory.
    MaxWriteBufferNumber,
    /// The size of one write buffer, in bytes.
    WriteBufferSize,
    /// The total size of level one, in bytes.
    MaxBytesForLevelBase,
    /// By how much each level may be larger than the one before.
    MaxBytesForLevelMultiplier,
    /// The size at which the manifest file is rolled over, in bytes.
    MaxManifestFileSize,
    /// The target size of a file of level one, in bytes.
    TargetFileSizeBase,
    /// How many write buffers are merged before they are written out.
    MinWriteBufferNumberToMerge,
    /// The number of level-zero files that starts a compaction.
    LevelZeroFileNumCompactionTrigger,
    /// The number of level-zero files at which writes are slowed down.
    LevelZeroSlowdownWritesTrigger,
    /// The number of level-zero files at which writes stop.
    LevelZeroStopWritesTrigger,
    /// How many compactions may run in the background at once.
    MaxBackgroundCompactions,
    /// How many flushes may run in the background at once.
    MaxBackgroundFlushes,
    /// Whether automatic compactions are switched off.
    DisableAutoCompactions,
    /// Whether the background work's I/O is measured.
    ReportBgIoStats,
    /// The number of levels of the database.
    NumLevels,
    /// Whether a write is flushed to stable storage before it returns.
    Sync,
    /// Whether a write bypasses the write-ahead log.
    DisableWal,
}

/// One option with the value that it is set to.
#[derive(Clone, Copy, Debug, PartialEq, Eq, Structural)]
pub struct Setting {
    pub key: OptionKey,
    pub value: Datum,
}

impl Datum {
    /// The shape of the value.
    pub open spec fn kind(self) -> Kind {
        match self {
            Datum::Flag(_) => Kind::Flag,
            Datum::Count(_) => Kind::Count,
            Datum::Size(_) => Kind::Size,
            Datum::Codec(_) => Kind::Codec,
        }
    }
}

impl OptionKey {
    /// The name of the atom that stands for the option in a map.
    pub open spec fn spec_name(self) -> &'static str {
        match self {
            OptionKey::TotalThreads => "total_threads",
            OptionKey::MemtableBudget => "optimize_level_type_compaction_memtable_memory_budget",
            OptionKey::CreateIfMissing => "create_if_missing",
            OptionKey::CompressionType => "compression_type",
            OptionKey::MaxOpenFiles => "max_open_files",
            OptionKey::UseFsync => "use_fsync",
            OptionKey::BytesPerSync => "bytes_per_sync",
            OptionKey::DisableDataSync => "disable_data_sync",
            OptionKey::AllowOsBuffer => "allow_os_buffer",
            OptionKey::TableCacheNumShardBits => "table_cache_num_shard_bits",
            OptionKey::MinWriteBufferNumber => "min_write_buffer_number",
            OptionKey::MaxWriteBufferNumber => "max_write_buffer_number",
            OptionKey::WriteBufferSize => "write_buffer_size",
            OptionKey::MaxBytesForLevelBase => "max_bytes_for_level_base",
            OptionKey::MaxBytesForLevelMultiplier => "max_bytes_for_level_multiplier",
            OptionKey::MaxManifestFileSize => "max_manifest_file_size",
            OptionKey::TargetFileSizeBase => "target_file_size_base",
            OptionKey::MinWriteBufferNumberToMerge => "min_write_buffer_number_to_merge",
            OptionKey::LevelZeroFileNumCompactionTrigger => "level_zero_file_num_compaction_trigger",
            OptionKey::LevelZeroSlowdownWritesTrigger => "level_zero_slowdown_writes_trigger",
            OptionKey::LevelZeroStopWritesTrigger => "level_zero_stop_writes_trigger",
            OptionKey::MaxBackgroundCompactions => "max_background_compactions",
            OptionKey::MaxBackgroundFlushes => "max_background_flushes",
            OptionKey::DisableAutoCompactions => "disable_auto_compactions",
            OptionKey::ReportBgIoStats => "report_bg_io_stats",
            OptionKey::NumLevels => "num_levels",
            OptionKey::Sync => "sync",
            OptionKey::DisableWal => "disable_wal",
        }
    }

    /// The shape that the option's value must have.
    pub open spec fn spec_kind(self) -> Kind {
        match self {
            OptionKey::TotalThreads => Kind::Count,
            OptionKey::MemtableBudget => Kind::Size,
            OptionKey::CreateIfMissing => Kind::Flag,
            OptionKey::CompressionType => Kind::Codec,
            OptionKey::MaxOpenFiles => Kind::Count,
            OptionKey::UseFsync => Kind::Flag,
            OptionKey::BytesPerSync => Kind::Size,
            OptionKey::DisableDataSync => Kind::Flag,
            OptionKey::AllowOsBuffer => Kind::Flag,
            OptionKey::TableCacheNumShardBits => Kind::Count,
            OptionKey::MinWriteBufferNumber => Kind::Count,
            OptionKey::MaxWriteBufferNumber => Kind::Count,
            OptionKey::WriteBufferSize => Kind::Size,
            OptionKey::MaxBytesForLevelBase => Kind::Size,
            OptionKey::MaxBytesForLevelMultiplier => Kind::Count,
            OptionKey::MaxManifestFileSize => Kind::Size,
            OptionKey::TargetFileSizeBase => Kind::Size,
            OptionKey::MinWriteBufferNumberToMerge => Kind::Count,
            OptionKey::LevelZeroFileNumCompactionTrigger => Kind::Count,
            OptionKey::LevelZeroSlowdownWritesTrigger => Kind::Count,
            OptionKey::LevelZeroStopWritesTrigger => Kind::Count,
            OptionKey::MaxBackgroundCompactions => Kind::Count,
            OptionKey::MaxBackgroundFlushes => Kind::Count,
            OptionKey::DisableAutoCompactions => Kind::Flag,
            OptionKey::ReportBgIoStats => Kind::Flag,
            OptionKey::NumLevels => Kind::Count,
            OptionKey::Sync => Kind::Flag,
            OptionKey::DisableWal => Kind::Flag,
        }
    }

    /// The name of the atom that stands for the option in a map.
    #[verifier::when_used_as_spec(spec_name)]
    pub fn name(self) -> (name: &'static str)
        ensures
            name@ == self.spec_name()@,
    {
        match self {
            OptionKey::TotalThreads => "total_threads",
            OptionKey::MemtableBudget => "optimize_level_type_compaction_memtable_memory_budget",
            OptionKey::CreateIfMissing => "create_if_missing",
            OptionKey::CompressionType => "compression_type",
            OptionKey::MaxOpenFiles => "max_open_files",
            OptionKey::UseFsync => "use_fsync",
            OptionKey::BytesPerSync => "bytes_per_sync",
            OptionKey::DisableDataSync => "disable_data_sync",
            OptionKey::AllowOsBuffer => "allow_os_buffer",
            OptionKey::TableCacheNumShardBits => "table_cache_num_shard_bits",
            OptionKey::MinWriteBufferNumber => "min_write_buffer_number",
            OptionKey::MaxWriteBufferNumber => "max_write_buffer_number",
            OptionKey::WriteBufferSize => "write_buffer_size",
            OptionKey::MaxBytesForLevelBase => "max_bytes_for_level_base",
            OptionKey::MaxBytesForLevelMultiplier => "max_bytes_for_level_multiplier",
            OptionKey::MaxManifestFileSize => "max_manifest_file_size",
            OptionKey::TargetFileSizeBase => "target_file_size_base",
            OptionKey::MinWriteBufferNumberToMerge => "min_write_buffer_number_to_merge",
            OptionKey::LevelZeroFileNumCompactionTrigger => "level_zero_file_num_compaction_trigger",
            OptionKey::LevelZeroSlowdownWritesTrigger => "level_zero_slowdown_writes_trigger",
            OptionKey::LevelZeroStopWritesTrigger => "level_zero_stop_writes_trigger",
            OptionKey::MaxBackgroundCompactions => "max_background_compactions",
            OptionKey::MaxBackgroundFlushes => "max_background_flushes",
            OptionKey::DisableAutoCompactions => "disable_auto_compactions",
            OptionKey::ReportBgIoStats => "report_bg_io_stats",
            OptionKey::NumLevels => "num_levels",
            OptionKey::Sync => "sync",
            OptionKey::DisableWal => "disable_wal",
        }
    }

    /// The shape that the option's value must have.
    #[verifier::when_used_as_spec(spec_kind)]
    pub fn kind(self) -> (kind: Kind)
        ensures
            kind == self.spec_kind(),
    {
        match self {
            OptionKey::TotalThreads => Kind::Count,
            OptionKey::MemtableBudget => Kind::Size,
            OptionKey::CreateIfMissing => Kind::Flag,
            OptionKey::CompressionType => Kind::Codec,
            OptionKey::MaxOpenFiles => Kind::Count,
            OptionKey::UseFsync => Kind::Flag,
            OptionKey::BytesPerSync => Kind::Size,
            OptionKey::DisableDataSync => Kind::Flag,
            OptionKey::AllowOsBuffer => Kind::Flag,
            OptionKey::TableCacheNumShardBits => Kind::Count,
            OptionKey::MinWriteBufferNumber => Kind::Count,
            OptionKey::MaxWriteBufferNumber => Kind::Count,
            OptionKey::WriteBufferSize => Kind::Size,
            OptionKey::MaxBytesForLevelBase => Kind::Size,
            OptionKey::MaxBytesForLevelMultiplier => Kind::Count,
            OptionKey::MaxManifestFileSize => Kind::Size,
            OptionKey::TargetFileSizeBase => Kind::Size,
            OptionKey::MinWriteBufferNumberToMerge => Kind::Count,
            OptionKey::LevelZeroFileNumCompactionTrigger => Kind::Count,
            OptionKey::LevelZeroSlowdownWritesTrigger => Kind::Count,
            OptionKey::LevelZeroStopWritesTrigger => Kind::Count,
            OptionKey::MaxBackgroundCompactions => Kind::Count,
            OptionKey::MaxBackgroundFlushes => Kind::Count,
            OptionKey::DisableAutoCompactions => Kind::Flag,
            OptionKey::ReportBgIoStats => Kind::Flag,
            OptionKey::NumLevels => Kind::Count,
            OptionKey::Sync => Kind::Flag,
            OptionKey::DisableWal => Kind::Flag,
        }
    }
}

/// The options of a database or of a column family, in the order in which
/// they are applied.
pub open spec fn database_schema() -> Seq<OptionKey> {
    seq![
        OptionKey::TotalThreads,
        OptionKey::MemtableBudget,
        OptionKey::CreateIfMissing,
        OptionKey::CompressionType,
        OptionKey::MaxOpenFiles,
        OptionKey::UseFsync,
        OptionKey::BytesPerSync,
        OptionKey::DisableDataSync,
        OptionKey::AllowOsBuffer,
        OptionKey::TableCacheNumShardBits,
        OptionKey::MinWriteBufferNumber,
        OptionKey::MaxWriteBufferNumber,
        OptionKey::WriteBufferSize,
        OptionKey::MaxBytesForLevelBase,
        OptionKey::MaxBytesForLevelMultiplier,
        OptionKey::MaxManifestFileSize,
        OptionKey::TargetFileSizeBase,
        OptionKey::MinWriteBufferNumberToMerge,
        OptionKey::LevelZeroFileNumCompactionTrigger,
        OptionKey::LevelZeroSlowdownWritesTrigger,
        OptionKey::LevelZeroStopWritesTrigger,
        OptionKey::MaxBackgroundCompactions,
        OptionKey::MaxBackgroundFlushes,
        OptionKey::DisableAutoCompactions,
        OptionKey::ReportBgIoStats,
        OptionKey::NumLevels,
    ]
}

/// The options of a single write, in the order in which they are applied.
pub open spec fn write_schema() -> Seq<OptionKey> {
    seq![
        OptionKey::Sync,
        OptionKey::DisableWal,
    ]
}

/// The options of a database or of a column family, in the order in which
/// they are applied.
pub fn database_keys() -> (keys: Vec<OptionKey>)
    ensures
        keys@ == database_schema(),
{
    let keys = vec![
        OptionKey::TotalThreads,
        OptionKey::MemtableBudget,
        OptionKey::CreateIfMissing,
        OptionKey::CompressionType,
        OptionKey::MaxOpenFiles,
        OptionKey::UseFsync,
        OptionKey::BytesPerSync,
        OptionKey::DisableDataSync,
        OptionKey::AllowOsBuffer,
        OptionKey::TableCacheNumShardBits,
        OptionKey::MinWriteBufferNumber,
        OptionKey::MaxWriteBufferNumber,
        OptionKey::WriteBufferSize,
        OptionKey::MaxBytesForLevelBase,
        OptionKey::MaxBytesForLevelMultiplier,
        OptionKey::MaxManifestFileSize,
        OptionKey::TargetFileSizeBase,
        OptionKey::MinWriteBufferNumberToMerge,
        OptionKey::LevelZeroFileNumCompactionTrigger,
        OptionKey::LevelZeroSlowdownWritesTrigger,
        OptionKey::LevelZeroStopWritesTrigger,
        OptionKey::MaxBackgroundCompactions,
        OptionKey::MaxBackgroundFlushes,
        OptionKey::DisableAutoCompactions,
        OptionKey::ReportBgIoStats,
        OptionKey::NumLevels,
    ];
    assert(keys@ =~= database_schema());
    keys
}

/// The options of a single write, in the order in which they are applied.
pub fn write_keys() -> (keys: Vec<OptionKey>)
    ensures
        keys@ == write_schema(),
{
    let keys = vec![
        OptionKey::Sync,
        OptionKey::DisableWal,
    ];
    assert(keys@ =~= write_schema());
    keys
}
/// The length of an option's name, and the bytes at two places of it, which
/// together tell every name from every other.
spec fn marks(key: OptionKey) -> (int, int, int) {
    match key {
        OptionKey::TotalThreads => (13, 111, 108),
        OptionKey::MemtableBudget => (53, 112, 109),
        OptionKey::CreateIfMissing => (17, 114, 116),
        OptionKey::CompressionType => (16, 111, 114),
        OptionKey::MaxOpenFiles => (14, 97, 111),
        OptionKey::UseFsync => (9, 115, 102),
        OptionKey::BytesPerSync => (14, 121, 115),
        OptionKey::DisableDataSync => (17, 105, 98),
        OptionKey::AllowOsBuffer => (15, 108, 119),
        OptionKey::TableCacheNumShardBits => (26, 97, 101),
        OptionKey::MinWriteBufferNumber => (23, 105, 119),
        OptionKey::MaxWriteBufferNumber => (23, 97, 119),
        OptionKey::WriteBufferSize => (17, 114, 101),
        OptionKey::MaxBytesForLevelBase => (24, 97, 98),
        OptionKey::MaxBytesForLevelMultiplier => (30, 97, 98),
        OptionKey::MaxManifestFileSize => (22, 97, 109),
        OptionKey::TargetFileSizeBase => (21, 97, 101),
        OptionKey::MinWriteBufferNumberToMerge => (32, 105, 119),
        OptionKey::LevelZeroFileNumCompactionTrigger => (38, 101, 108),
        OptionKey::LevelZeroSlowdownWritesTrigger => (34, 101, 108),
        OptionKey::LevelZeroStopWritesTrigger => (30, 101, 108),
        OptionKey::MaxBackgroundCompactions => (26, 97, 98),
        OptionKey::MaxBackgroundFlushes => (22, 97, 98),
        OptionKey::DisableAutoCompactions => (24, 105, 98),
        OptionKey::ReportBgIoStats => (18, 101, 114),
        OptionKey::NumLevels => (10, 117, 108),
        OptionKey::Sync => (4, 121, 0),
        OptionKey::DisableWal => (11, 105, 98),
    }
}

/// The marks of a name are those of its bytes.
proof fn marks_are_read_off(key: OptionKey)
    ensures
        key.name().spec_bytes().len() == marks(key).0,
        marks(key).0 > 4 ==> key.name().spec_bytes()[1] == marks(key).1 && key.name().spec_bytes()[4]
            == marks(key).2,
{
    match key {
        OptionKey::TotalThreads => {
            reveal_strlit("total_threads");
            is_ascii_spec_bytes("total_threads");
        },
        OptionKey::MemtableBudget => {
            reveal_strlit("optimize_level_type_compaction_memtable_memory_budget");
            is_ascii_spec_bytes("optimize_level_type_compaction_memtable_memory_budget");
        },
        OptionKey::CreateIfMissing => {
            reveal_strlit("create_if_missing");
            is_ascii_spec_bytes("create_if_missing");
        },
        OptionKey::CompressionType => {
            reveal_strlit("compression_type");
            is_ascii_spec_bytes("compression_type");
        },
        OptionKey::MaxOpenFiles => {
            reveal_strlit("max_open_files");
            is_ascii_spec_bytes("max_open_files");
        },
        OptionKey::UseFsync => {
            reveal_strlit("use_fsync");
            is_ascii_spec_bytes("use_fsync");
        },
        OptionKey::BytesPerSync => {
            reveal_strlit("bytes_per_sync");
            is_ascii_spec_bytes("bytes_per_sync");
        },
        OptionKey::DisableDataSync => {
            reveal_strlit("disable_data_sync");
            is_ascii_spec_bytes("disable_data_sync");
        },
        OptionKey::AllowOsBuffer => {
            reveal_strlit("allow_os_buffer");
            is_ascii_spec_bytes("allow_os_buffer");
        },
        OptionKey::TableCacheNumShardBits => {
            reveal_strlit("table_cache_num_shard_bits");
            is_ascii_spec_bytes("table_cache_num_shard_bits");
        },
        OptionKey::MinWriteBufferNumber => {
            reveal_strlit("min_write_buffer_number");
            is_ascii_spec_bytes("min_write_buffer_number");
        },
        OptionKey::MaxWriteBufferNumber => {
            reveal_strlit("max_write_buffer_number");
            is_ascii_spec_bytes("max_write_buffer_number");
        },
        OptionKey::WriteBufferSize => {
            reveal_strlit("write_buffer_size");
            is_ascii_spec_bytes("write_buffer_size");
        },
        OptionKey::MaxBytesForLevelBase => {
            reveal_strlit("max_bytes_for_level_base");
            is_ascii_spec_bytes("max_bytes_for_level_base");
        },
        OptionKey::MaxBytesForLevelMultiplier => {
            reveal_strlit("max_bytes_for_level_multiplier");
            is_ascii_spec_bytes("max_bytes_for_level_multiplier");
        },
        OptionKey::MaxManifestFileSize => {
            reveal_strlit("max_manifest_file_size");
            is_ascii_spec_bytes("max_manifest_file_size");
        },
        OptionKey::TargetFileSizeBase => {
            reveal_strlit("target_file_size_base");
            is_ascii_spec_bytes("target_file_size_base");
        },
        OptionKey::MinWriteBufferNumberToMerge => {
            reveal_strlit("min_write_buffer_number_to_merge");
            is_ascii_spec_bytes("min_write_buffer_number_to_merge");
        },
        OptionKey::LevelZeroFileNumCompactionTrigger => {
            reveal_strlit("level_zero_file_num_compaction_trigger");
            is_ascii_spec_bytes("level_zero_file_num_compaction_trigger");
        },
        OptionKey::LevelZeroSlowdownWritesTrigger => {
            reveal_strlit("level_zero_slowdown_writes_trigger");
            is_ascii_spec_bytes("level_zero_slowdown_writes_trigger");
        },
        OptionKey::LevelZeroStopWritesTrigger => {
            reveal_strlit("level_zero_stop_writes_trigger");
            is_ascii_spec_bytes("level_zero_stop_writes_trigger");
        },
        OptionKey::MaxBackgroundCompactions => {
            reveal_strlit("max_background_compactions");
            is_ascii_spec_bytes("max_background_compactions");
        },
        OptionKey::MaxBackgroundFlushes => {
            reveal_strlit("max_background_flushes");
            is_ascii_spec_bytes("max_background_flushes");
        },
        OptionKey::DisableAutoCompactions => {
            reveal_strlit("disable_auto_compactions");
            is_ascii_spec_bytes("disable_auto_compactions");
        },
        OptionKey::ReportBgIoStats => {
            reveal_strlit("report_bg_io_stats");
            is_ascii_spec_bytes("report_bg_io_stats");
        },
        OptionKey::NumLevels => {
            reveal_strlit("num_levels");
            is_ascii_spec_bytes("num_levels");
        },
        OptionKey::Sync => {
            reveal_strlit("sync");
            is_ascii_spec_bytes("sync");
        },
        OptionKey::DisableWal => {
            reveal_strlit("disable_wal");
            is_ascii_spec_bytes("disable_wal");
        },
    }
}

/// No two options share a name: an entry of a map stands for one option at
/// most.
pub proof fn names_are_distinct(one: OptionKey, other: OptionKey)
    requires
        one != other,
    ensures
        atom(one.name()) != atom(other.name()),
{
    marks_are_read_off(one);
    marks_are_read_off(other);
}

/// The place of an option in its schema.
pub open spec fn rank(key: OptionKey) -> int {
    match key {
        OptionKey::TotalThreads => 0,
        OptionKey::MemtableBudget => 1,
        OptionKey::CreateIfMissing => 2,
        OptionKey::CompressionType => 3,
        OptionKey::MaxOpenFiles => 4,
        OptionKey::UseFsync => 5,
        OptionKey::BytesPerSync => 6,
        OptionKey::DisableDataSync => 7,
        OptionKey::AllowOsBuffer => 8,
        OptionKey::TableCacheNumShardBits => 9,
        OptionKey::MinWriteBufferNumber => 10,
        OptionKey::MaxWriteBufferNumber => 11,
        OptionKey::WriteBufferSize => 12,
        OptionKey::MaxBytesForLevelBase => 13,
        OptionKey::MaxBytesForLevelMultiplier => 14,
        OptionKey::MaxManifestFileSize => 15,
        OptionKey::TargetFileSizeBase => 16,
        OptionKey::MinWriteBufferNumberToMerge => 17,
        OptionKey::LevelZeroFileNumCompactionTrigger => 18,
        OptionKey::LevelZeroSlowdownWritesTrigger => 19,
        OptionKey::LevelZeroStopWritesTrigger => 20,
        OptionKey::MaxBackgroundCompactions => 21,
        OptionKey::MaxBackgroundFlushes => 22,
        OptionKey::DisableAutoCompactions => 23,
        OptionKey::ReportBgIoStats => 24,
        OptionKey::NumLevels => 25,
        OptionKey::Sync => 0,
        OptionKey::DisableWal => 1,
    }
}

/// Each option stands in its schema once, at the place of its rank.
pub proof fn schemas_have_no_duplicates()
    ensures
        database_schema().no_duplicates(),
        write_schema().no_duplicates(),
        forall|i: int| 0 <= i < database_schema().len() ==> rank(#[trigger] database_schema()[i]) == i,
        forall|i: int| 0 <= i < write_schema().len() ==> rank(#[trigger] write_schema()[i]) == i,
{
    assert(database_schema()[0] == OptionKey::TotalThreads);
    assert(database_schema()[1] == OptionKey::MemtableBudget);
    assert(database_schema()[2] == OptionKey::CreateIfMissing);
    assert(database_schema()[3] == OptionKey::CompressionType);
    assert(database_schema()[4] == OptionKey::MaxOpenFiles);
    assert(database_schema()[5] == OptionKey::UseFsync);
    assert(database_schema()[6] == OptionKey::BytesPerSync);
    assert(database_schema()[7] == OptionKey::DisableDataSync);
    assert(database_schema()[8] == OptionKey::AllowOsBuffer);
    assert(database_schema()[9] == OptionKey::TableCacheNumShardBits);
    assert(database_schema()[10] == OptionKey::MinWriteBufferNumber);
    assert(database_schema()[11] == OptionKey::MaxWriteBufferNumber);
    assert(database_schema()[12] == OptionKey::WriteBufferSize);
    assert(database_schema()[13] == OptionKey::MaxBytesForLevelBase);
    assert(database_schema()[14] == OptionKey::MaxBytesForLevelMultiplier);
    assert(database_schema()[15] == OptionKey::MaxManifestFileSize);
    assert(database_schema()[16] == OptionKey::TargetFileSizeBase);
    assert(database_schema()[17] == OptionKey::MinWriteBufferNumberToMerge);
    assert(database_schema()[18] == OptionKey::LevelZeroFileNumCompactionTrigger);
    assert(database_schema()[19] == OptionKey::LevelZeroSlowdownWritesTrigger);
    assert(database_schema()[20] == OptionKey::LevelZeroStopWritesTrigger);
    assert(database_schema()[21] == OptionKey::MaxBackgroundCompactions);
    assert(database_schema()[22] == OptionKey::MaxBackgroundFlushes);
    assert(database_schema()[23] == OptionKey::DisableAutoCompactions);
    assert(database_schema()[24] == OptionKey::ReportBgIoStats);
    assert(database_schema()[25] == OptionKey::NumLevels);
    assert(write_schema()[0] == OptionKey::Sync);
    assert(write_schema()[1] == OptionKey::DisableWal);
}

} // verus!
