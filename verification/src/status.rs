//! Status of the Everything service instance the client talks to.
//!
//! The values are read once from the service when the client starts; the
//! library only carries them and turns them into the short markers the
//! status popup shows.

use vstd::prelude::*;

verus! {

/// A snapshot of the indexing service's state, taken at startup.
///
/// `version` is the service version as `(major, minor, revision, build)`.
#[derive(Debug)]
pub struct Status {
    pub is_db_loaded: bool,

    pub version: (u32, u32, u32, u32),

    pub is_admin: bool,
    pub is_appdata: bool,

    pub is_file_size_indexed: bool,
    pub is_folder_size_indexed: bool,
    pub is_date_created_indexed: bool,
    pub is_date_modified_indexed: bool,
    pub is_date_accessed_indexed: bool,
    pub is_attributes_indexed: bool,

    pub is_size_fast_sort: bool,
    pub is_date_created_fast_sort: bool,
    pub is_date_modified_fast_sort: bool,
    pub is_date_accessed_fast_sort: bool,
    pub is_attributes_fast_sort: bool,
    pub is_path_fast_sort: bool,
    pub is_extension_fast_sort: bool,
}

/// The marker the status popup shows for an enabled or disabled capability.
pub fn yes_or_no(b: bool) -> (r: char)
    ensures
        r == (if b {
            '\u{1F7E2}'
        } else {
            '\u{1F7E4}'
        }),
{
    if b {
        '\u{1F7E2}'
    } else {
        '\u{1F7E4}'
    }
}

/// The suffix the status popup shows beside an index that supports fast sorting.
pub fn is_fast_sort(b: bool) -> (r: &'static str)
    ensures
        b ==> r@ == "(fast sort)"@,
        !b ==> r@ == ""@,
{
    if b {
        "(fast sort)"
    } else {
        ""
    }
}

} // verus!
