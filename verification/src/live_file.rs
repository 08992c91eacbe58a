//! The description of a live table file of the database.
use vstd::prelude::*;

verus! {

/// A live table file: where it belongs, how large it is and which keys it
/// holds.
#[derive(Debug, PartialEq, Eq)]
#[must_use]
pub struct SoyLiveFile {
    pub column_family_name: String,
    pub name: String,
    pub size: usize,
    pub level: i32,
    pub start_key: Option<Vec<u8>>,
    pub end_key: Option<Vec<u8>>,
    pub num_entries: u64,
    pub num_deletions: u64,
}

} // verus!
