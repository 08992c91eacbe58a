//! Options for writes.
use vstd::prelude::*;

verus! {

/// The options a write is made with.
#[derive(Debug, Clone, Copy, PartialEq, Eq)]
#[must_use]
pub struct SoyWriteOpts {
    pub disable_wal: bool,
    pub set_ignore_missing_column_families: bool,
    pub set_low_pri: bool,
    pub set_memtable_insert_hint_per_batch: bool,
    pub set_no_slowdown: bool,
    pub set_sync: bool,
}

impl Default for SoyWriteOpts {
    /// Every switch is off.
    fn default() -> (opts: SoyWriteOpts)
        ensures
            opts == (SoyWriteOpts {
                disable_wal: false,
                set_ignore_missing_column_families: false,
                set_low_pri: false,
                set_memtable_insert_hint_per_batch: false,
                set_no_slowdown: false,
                set_sync: false,
            }),
    {
        SoyWriteOpts {
            disable_wal: false,
            set_ignore_missing_column_families: false,
            set_low_pri: false,
            set_memtable_insert_hint_per_batch: false,
            set_no_slowdown: false,
            set_sync: false,
        }
    }
}

} // verus!
