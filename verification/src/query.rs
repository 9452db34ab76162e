//! The immutable description of one search: what to look for and which
//! optional attributes each returned entry should carry.

use vstd::prelude::*;

verus! {

/// The order in which the indexing service sorts the result list.
///
/// The variants mirror the sort modes the service offers; the default is
/// sorting by name, ascending.
#[derive(Debug, Clone, Copy, PartialEq, Eq, Structural)]
pub enum SortType {
    NameAscending,
    NameDescending,
    PathAscending,
    PathDescending,
    SizeAscending,
    SizeDescending,
    ExtensionAscending,
    ExtensionDescending,
    TypeNameAscending,
    TypeNameDescending,
    DateCreatedAscending,
    DateCreatedDescending,
    DateModifiedAscending,
    DateModifiedDescending,
    AttributesAscending,
    AttributesDescending,
    FileListFilenameAscending,
    FileListFilenameDescending,
    RunCountAscending,
    RunCountDescending,
    DateRecentlyChangedAscending,
    DateRecentlyChangedDescending,
    DateAccessedAscending,
    DateAccessedDescending,
    DateRunAscending,
    DateRunDescending,
}

impl Default for SortType {
    /// The service's default sort order.
    fn default() -> (r: Self)
        ensures
            r == SortType::NameAscending,
    {
        SortType::NameAscending
    }
}

/// Which optional attributes the service should populate per result entry.
///
/// One flag per attribute; an entry field is populated exactly when its flag
/// is set in the request that produced it. The default set asks for the file
/// name and its parent path, which is what the result list renders.
#[derive(Debug, Clone, Copy, PartialEq, Eq, Structural)]
pub struct RequestFlags {
    pub file_name: bool,
    pub path: bool,
    pub full_path_and_file_name: bool,
    pub extension: bool,
    pub size: bool,
    pub date_created: bool,
    pub date_modified: bool,
    pub date_accessed: bool,
    pub attributes: bool,
    pub file_list_file_name: bool,
    pub run_count: bool,
    pub date_run: bool,
    pub date_recently_changed: bool,
    pub highlighted_file_name: bool,
    pub highlighted_path: bool,
    pub highlighted_full_path_and_file_name: bool,
}

impl RequestFlags {
    /// The default request: file name and parent path only.
    pub open spec fn spec_default() -> RequestFlags {
        RequestFlags {
            file_name: true,
            path: true,
            full_path_and_file_name: false,
            extension: false,
            size: false,
            date_created: false,
            date_modified: false,
            date_accessed: false,
            attributes: false,
            file_list_file_name: false,
            run_count: false,
            date_run: false,
            date_recently_changed: false,
            highlighted_file_name: false,
            highlighted_path: false,
            highlighted_full_path_and_file_name: false,
        }
    }
}

impl Default for RequestFlags {
    fn default() -> (r: Self)
        ensures
            r == RequestFlags::spec_default(),
    {
        RequestFlags {
            file_name: true,
            path: true,
            full_path_and_file_name: false,
            extension: false,
            size: false,
            date_created: false,
            date_modified: false,
            date_accessed: false,
            attributes: false,
            file_list_file_name: false,
            run_count: false,
            date_run: false,
            date_recently_changed: false,
            highlighted_file_name: false,
            highlighted_path: false,
            highlighted_full_path_and_file_name: false,
        }
    }
}

/// One search request, created per submission and owned by the message
/// handed to the dispatcher.
///
/// `offset` and `max` bound what is asked of the service: entries
/// `offset .. offset + max` of the full match list.
#[derive(Debug)]
pub struct Query {
    pub search: String,
    pub match_path: bool,
    pub match_case: bool,
    pub match_whole_word: bool,
    pub regex: bool,
    pub max: u32,
    pub offset: u32,
    pub sort_type: SortType,
    pub request_flags: RequestFlags,
}

/// The client-side cap on how many entries one submission asks for.
pub const SUBMIT_MAX_RESULTS: u32 = 512;

impl Query {
    /// The request the client dispatches when the user submits `search`:
    /// default matching options, default sort and attribute set, and the
    /// client-side cap on the number of entries.
    pub fn with_search(search: String) -> (r: Query)
        ensures
            r.search == search,
            !r.match_path,
            !r.match_case,
            !r.match_whole_word,
            !r.regex,
            r.max == SUBMIT_MAX_RESULTS,
            r.offset == 0,
            r.sort_type == SortType::NameAscending,
            r.request_flags == RequestFlags::spec_default(),
    {
        Query {
            search,
            match_path: false,
            match_case: false,
            match_whole_word: false,
            regex: false,
            max: SUBMIT_MAX_RESULTS,
            offset: 0,
            sort_type: Default::default(),
            request_flags: Default::default(),
        }
    }
}

impl Default for Query {
    /// An unrestricted request for nothing: empty search text, default
    /// options, and no cap on the number of entries.
    fn default() -> (r: Self)
        ensures
            r.search@ == Seq::<char>::empty(),
            !r.match_path,
            !r.match_case,
            !r.match_whole_word,
            !r.regex,
            r.max == u32::MAX,
            r.offset == 0,
            r.sort_type == SortType::NameAscending,
            r.request_flags == RequestFlags::spec_default(),
    {
        Query {
            search: String::new(),
            match_path: false,
            match_case: false,
            match_whole_word: false,
            regex: false,
            max: u32::MAX,
            offset: 0,
            sort_type: Default::default(),
            request_flags: Default::default(),
        }
    }
}

} // verus!
