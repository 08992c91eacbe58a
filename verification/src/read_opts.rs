//! Options for reads and for cursors.
use vstd::prelude::*;
use crate::bin::Bin;

verus! {

/// The options a read is made with. A field that is not set leaves the engine's
/// own default in place.
#[derive(Debug, Clone, PartialEq, Eq)]
#[must_use]
pub struct SoyReadOpts {
    pub fill_cache: Option<bool>,
    pub set_background_purge_on_iterator_cleanup: Option<bool>,
    pub set_ignore_range_deletions: Option<bool>,
    pub set_iterate_lower_bound: Option<Bin>,
    pub set_iterate_upper_bound: Option<Bin>,
    pub set_max_skippable_internal_keys: Option<u64>,
    pub set_pin_data: Option<bool>,
    pub set_prefix_same_as_start: Option<bool>,
    pub set_readahead_size: Option<usize>,
    pub set_tailing: Option<bool>,
    pub set_total_order_seek: Option<bool>,
    pub set_verify_checksums: Option<bool>,
}

impl Default for SoyReadOpts {
    /// Reads fill the cache and verify checksums; nothing is bounded, pinned,
    /// skipped or read ahead; tailing and total-order seeks are left to the
    /// engine.
    fn default() -> (opts: SoyReadOpts)
        ensures
            opts.fill_cache == Some(true),
            opts.set_background_purge_on_iterator_cleanup == Some(false),
            opts.set_ignore_range_deletions == Some(false),
            opts.set_iterate_lower_bound is None,
            opts.set_iterate_upper_bound is None,
            opts.set_max_skippable_internal_keys == Some(0u64),
            opts.set_pin_data == Some(false),
            opts.set_prefix_same_as_start == Some(false),
            opts.set_readahead_size == Some(0usize),
            opts.set_tailing is None,
            opts.set_total_order_seek is None,
            opts.set_verify_checksums == Some(true),
    {
        SoyReadOpts {
            fill_cache: Some(true),
            set_iterate_lower_bound: None,
            set_iterate_upper_bound: None,
            set_prefix_same_as_start: Some(false),
            set_total_order_seek: None,
            set_max_skippable_internal_keys: Some(0),
            set_background_purge_on_iterator_cleanup: Some(false),
            set_ignore_range_deletions: Some(false),
            set_verify_checksums: Some(true),
            set_readahead_size: Some(0),
            set_pin_data: Some(false),
            set_tailing: None,
        }
    }
}

} // verus!
