//! One completed result batch: what was searched and what came back.
//!
//! A batch replaces the previously displayed one wholesale; it is never
//! patched in place.

use crate::entry::{entry_matches_flags, QueryEntry};
use crate::query::{RequestFlags, SortType};
use vstd::prelude::*;

verus! {

/// The outcome of one query, immutable once assembled.
///
/// `search` echoes the text that was actually searched, which may
/// legitimately differ from the edit box while a newer request is in
/// flight; staleness is judged by this echo, not by arrival order.
/// `number` is how many entries this batch carries, `total` how many the
/// service matched overall.
#[derive(Debug)]
pub struct QueryResults {
    pub search: String,
    pub offset: u32,
    pub number: u32,
    pub total: u32,
    pub request_flags: RequestFlags,
    pub sort_type: SortType,
    pub entrys: Vec<QueryEntry>,
}

impl QueryResults {
    /// The batch invariant: the entry list has exactly `number` entries and
    /// never claims more than the service's total match count.
    pub open spec fn wf(self) -> bool {
        &&& self.number == self.entrys@.len()
        &&& self.number <= self.total
    }

    /// Every entry's optional fields agree with the batch's request flags.
    pub open spec fn entries_match_flags(self) -> bool {
        forall|i: int|
            0 <= i < self.entrys@.len() ==> entry_matches_flags(
                #[trigger] self.entrys@[i],
                self.request_flags,
            )
    }
}

impl Default for QueryResults {
    /// The batch shown before any search completed: nothing was searched
    /// and nothing matched.
    fn default() -> (r: Self)
        ensures
            r.search@ == Seq::<char>::empty(),
            r.offset == 0,
            r.number == 0,
            r.total == 0,
            r.request_flags == RequestFlags::spec_default(),
            r.sort_type == SortType::NameAscending,
            r.entrys@ == Seq::<QueryEntry>::empty(),
            r.wf(),
            r.entries_match_flags(),
    {
        QueryResults {
            search: String::new(),
            offset: 0,
            number: 0,
            total: 0,
            request_flags: Default::default(),
            sort_type: Default::default(),
            entrys: Vec::new(),
        }
    }
}

} // verus!
