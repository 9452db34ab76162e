//! One matched item of a result batch, and how it is built from what the
//! indexing service hands back.

use crate::query::RequestFlags;
use vstd::prelude::*;

verus! {

/// The mutually exclusive classification of a matched item.
#[derive(Debug, Clone, Copy, PartialEq, Eq, Structural)]
pub enum EntryKind {
    Volume,
    Folder,
    File,
}

/// The attributes of one matched item as the indexing service reports them,
/// before the request's attribute selection is applied.
///
/// Every field carries a value here; which of them reach the [`QueryEntry`]
/// is decided by the [`RequestFlags`] of the request that produced the item.
#[derive(Debug)]
pub struct RawItem {
    pub index: u32,
    pub kind: EntryKind,
    pub filename: String,
    pub path: String,
    pub filepath: String,
    pub full_path_name: String,
    pub extension: String,
    pub size: u64,
    pub date_created: u64,
    pub date_modified: u64,
    pub date_accessed: u64,
    pub attributes: u32,
    pub file_list_filename: String,
    pub run_count: u32,
    pub date_run: u64,
    pub date_recently_changed: u64,
    pub highlighted_filename: String,
    pub highlighted_path: String,
    pub highlighted_full_path_and_filename: String,
}

/// One entry of a result batch, immutable once constructed.
///
/// `index` is the entry's position in this result set, not a stable global
/// id. Each optional field is `Some` exactly when the corresponding flag was
/// set in the request that produced the batch; `None` means "not requested",
/// which is distinct from an empty or zero value.
#[derive(Debug)]
pub struct QueryEntry {
    pub index: u32,
    pub kind: EntryKind,
    pub filename: Option<String>,
    pub path: Option<String>,
    pub filepath: Option<String>,
    pub full_path_name: Option<String>,
    pub extension: Option<String>,
    pub size: Option<u64>,
    pub date_created: Option<u64>,
    pub date_modified: Option<u64>,
    pub date_accessed: Option<u64>,
    pub attributes: Option<u32>,
    pub file_list_filename: Option<String>,
    pub run_count: Option<u32>,
    pub date_run: Option<u64>,
    pub date_recently_changed: Option<u64>,
    pub highlighted_filename: Option<String>,
    pub highlighted_path: Option<String>,
    pub highlighted_full_path_and_filename: Option<String>,
}

/// The entry that `flags` selects out of `item`: each optional field holds
/// the item's value when its flag is set and is absent otherwise. The
/// combined file path is populated only when both the path and the file
/// name were requested, as the service computes it from those two.
pub open spec fn entry_of(item: RawItem, flags: RequestFlags) -> QueryEntry {
    QueryEntry {
        index: item.index,
        kind: item.kind,
        filename: if flags.file_name {
            Some(item.filename)
        } else {
            None
        },
        path: if flags.path {
            Some(item.path)
        } else {
            None
        },
        filepath: if flags.path && flags.file_name {
            Some(item.filepath)
        } else {
            None
        },
        full_path_name: if flags.full_path_and_file_name {
            Some(item.full_path_name)
        } else {
            None
        },
        extension: if flags.extension {
            Some(item.extension)
        } else {
            None
        },
        size: if flags.size {
            Some(item.size)
        } else {
            None
        },
        date_created: if flags.date_created {
            Some(item.date_created)
        } else {
            None
        },
        date_modified: if flags.date_modified {
            Some(item.date_modified)
        } else {
            None
        },
        date_accessed: if flags.date_accessed {
            Some(item.date_accessed)
        } else {
            None
        },
        attributes: if flags.attributes {
            Some(item.attributes)
        } else {
            None
        },
        file_list_filename: if flags.file_list_file_name {
            Some(item.file_list_filename)
        } else {
            None
        },
        run_count: if flags.run_count {
            Some(item.run_count)
        } else {
            None
        },
        date_run: if flags.date_run {
            Some(item.date_run)
        } else {
            None
        },
        date_recently_changed: if flags.date_recently_changed {
            Some(item.date_recently_changed)
        } else {
            None
        },
        highlighted_filename: if flags.highlighted_file_name {
            Some(item.highlighted_filename)
        } else {
            None
        },
        highlighted_path: if flags.highlighted_path {
            Some(item.highlighted_path)
        } else {
            None
        },
        highlighted_full_path_and_filename: if flags.highlighted_full_path_and_file_name {
            Some(item.highlighted_full_path_and_filename)
        } else {
            None
        },
    }
}

/// Each optional field of `e` is present exactly when its flag is set in
/// `flags`; the combined file path needs both the path and file name flags.
pub open spec fn entry_matches_flags(e: QueryEntry, flags: RequestFlags) -> bool {
    &&& e.filename is Some <==> flags.file_name
    &&& e.path is Some <==> flags.path
    &&& e.filepath is Some <==> flags.path && flags.file_name
    &&& e.full_path_name is Some <==> flags.full_path_and_file_name
    &&& e.extension is Some <==> flags.extension
    &&& e.size is Some <==> flags.size
    &&& e.date_created is Some <==> flags.date_created
    &&& e.date_modified is Some <==> flags.date_modified
    &&& e.date_accessed is Some <==> flags.date_accessed
    &&& e.attributes is Some <==> flags.attributes
    &&& e.file_list_filename is Some <==> flags.file_list_file_name
    &&& e.run_count is Some <==> flags.run_count
    &&& e.date_run is Some <==> flags.date_run
    &&& e.date_recently_changed is Some <==> flags.date_recently_changed
    &&& e.highlighted_filename is Some <==> flags.highlighted_file_name
    &&& e.highlighted_path is Some <==> flags.highlighted_path
    &&& e.highlighted_full_path_and_filename is Some <==> flags.highlighted_full_path_and_file_name
}

/// A field of the entry that `flags` selects is populated if and only if the
/// corresponding flag is set, whatever the item holds; absence is "not
/// requested", never a missing value.
pub proof fn lemma_field_presence_matches_flags(item: RawItem, flags: RequestFlags)
    ensures
        entry_matches_flags(entry_of(item, flags), flags),
{
}

/// Applies the request's attribute selection to one item the service
/// returned: a field is carried over exactly when its flag is set.
pub fn item_to_entry(item: RawItem, request_flags: RequestFlags) -> (r: QueryEntry)
    ensures
        r == entry_of(item, request_flags),
        entry_matches_flags(r, request_flags),
{
    let RawItem {
        index,
        kind,
        filename,
        path,
        filepath,
        full_path_name,
        extension,
        size,
        date_created,
        date_modified,
        date_accessed,
        attributes,
        file_list_filename,
        run_count,
        date_run,
        date_recently_changed,
        highlighted_filename,
        highlighted_path,
        highlighted_full_path_and_filename,
    } = item;
    let flags = request_flags;
    QueryEntry {
        index,
        kind,
        filename: if flags.file_name {
            Some(filename)
        } else {
            None
        },
        path: if flags.path {
            Some(path)
        } else {
            None
        },
        filepath: if flags.path && flags.file_name {
            Some(filepath)
        } else {
            None
        },
        full_path_name: if flags.full_path_and_file_name {
            Some(full_path_name)
        } else {
            None
        },
        extension: if flags.extension {
            Some(extension)
        } else {
            None
        },
        size: if flags.size {
            Some(size)
        } else {
            None
        },
        date_created: if flags.date_created {
            Some(date_created)
        } else {
            None
        },
        date_modified: if flags.date_modified {
            Some(date_modified)
        } else {
            None
        },
        date_accessed: if flags.date_accessed {
            Some(date_accessed)
        } else {
            None
        },
        attributes: if flags.attributes {
            Some(attributes)
        } else {
            None
        },
        file_list_filename: if flags.file_list_file_name {
            Some(file_list_filename)
        } else {
            None
        },
        run_count: if flags.run_count {
            Some(run_count)
        } else {
            None
        },
        date_run: if flags.date_run {
            Some(date_run)
        } else {
            None
        },
        date_recently_changed: if flags.date_recently_changed {
            Some(date_recently_changed)
        } else {
            None
        },
        highlighted_filename: if flags.highlighted_file_name {
            Some(highlighted_filename)
        } else {
            None
        },
        highlighted_path: if flags.highlighted_path {
            Some(highlighted_path)
        } else {
            None
        },
        highlighted_full_path_and_filename: if flags.highlighted_full_path_and_file_name {
            Some(highlighted_full_path_and_filename)
        } else {
            None
        },
    }
}

} // verus!
