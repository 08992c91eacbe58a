//! Options for opening a database or creating a column family.
use vstd::prelude::*;
use crate::merger::MergeOperator;

verus! {

/// How the engine compacts the files of a keyspace.
#[derive(Debug, Clone, Copy, PartialEq, Eq, Structural)]
pub enum CompactionStyle {
    Universal,
    Fifo,
    Level,
}

/// The options a database is opened with. A field that is not set leaves the
/// engine's own default in place.
#[derive(Debug, PartialEq, Eq)]
#[must_use]
pub struct SoyOpenOpts {
    pub create_if_missing: Option<bool>,
    pub create_missing_column_families: Option<bool>,
    pub set_max_open_files: Option<i32>,
    pub set_use_fsync: Option<bool>,
    pub set_bytes_per_sync: Option<u64>,
    pub optimize_for_point_lookup: Option<u64>,
    pub set_table_cache_num_shard_bits: Option<i32>,
    pub set_max_write_buffer_number: Option<i32>,
    pub set_write_buffer_size: Option<usize>,
    pub set_target_file_size_base: Option<u64>,
    pub set_min_write_buffer_number_to_merge: Option<i32>,
    pub set_level_zero_stop_writes_trigger: Option<i32>,
    pub set_level_zero_slowdown_writes_trigger: Option<i32>,
    pub set_disable_auto_compactions: Option<bool>,
    pub set_compaction_style: Option<CompactionStyle>,
    /// The name under which a merge operator is registered, and the operator.
    pub set_merge_operator_associative: Option<(String, MergeOperator)>,
    /// The length of the key prefix by which the keyspace is partitioned.
    pub prefix_length: Option<usize>,
}

} // verus!
