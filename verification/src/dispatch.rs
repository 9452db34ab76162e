//! The query dispatcher: one worker owns the connection to the indexing
//! service, takes submitted requests strictly in order, and produces one
//! result batch per request.
//!
//! The dispatcher itself decides; the blocking call to the service is made
//! by its caller, which performs the [`DispatchStep::Remote`] plan and hands
//! the [`ServiceReply`] back to [`assemble`]. A request with empty search
//! text never reaches the service: it is answered locally with the empty
//! batch.

use crate::entry::{entry_of, item_to_entry, RawItem};
use crate::query::{Query, RequestFlags, SortType};
use crate::results::QueryResults;
use vstd::prelude::*;

verus! {

/// One submitted request, stamped with its submission sequence number.
#[derive(Debug)]
pub struct PendingQuery {
    pub seq_no: u64,
    pub query: Query,
}

/// What the dispatcher decides to do for one request.
#[derive(Debug)]
pub enum DispatchStep {
    /// The request is answered locally with this batch; the service is not
    /// called.
    Local(QueryResults),
    /// The one call to make to the service, with exactly the submitted
    /// request's options.
    Remote(Query),
}

/// What the indexing service returned for one call: the matched items of
/// the requested window, the overall match count, and the request options
/// it echoes back.
#[derive(Debug)]
pub struct ServiceReply {
    pub total: u32,
    pub request_flags: RequestFlags,
    pub sort_type: SortType,
    pub items: Vec<RawItem>,
}

impl ServiceReply {
    /// A reply never carries more entries than the service's own total
    /// match count; on one that does, the client stops, as the result list
    /// could not be rendered consistently.
    pub open spec fn wf(self) -> bool {
        self.items@.len() <= self.total
    }
}

/// The bookkeeping of the dispatcher worker: the requests submitted and not
/// yet taken up, in submission order, and the stamp for the next
/// submission. `processed` is the ghost trace of the sequence numbers
/// already taken up, in the order the worker took them.
pub struct Dispatcher {
    pub pending: Vec<PendingQuery>,
    pub next_seq: u64,
    pub processed: Ghost<Seq<u64>>,
}

impl Dispatcher {
    /// The dispatcher invariant: the stamps handed out so far are exactly
    /// `0, 1, ..., next_seq - 1`; those already taken up come first and in
    /// order, and the pending ones continue the numbering in queue order.
    pub open spec fn wf(self) -> bool {
        &&& self.next_seq == self.processed@.len() + self.pending@.len()
        &&& forall|i: int|
            0 <= i < self.processed@.len() ==> #[trigger] self.processed@[i] as int == i
        &&& forall|i: int|
            0 <= i < self.pending@.len() ==> #[trigger] self.pending@[i].seq_no as int
                == self.processed@.len() + i
    }

    /// A dispatcher that has seen no submission yet.
    pub fn new() -> (r: Dispatcher)
        ensures
            r.pending@ == Seq::<PendingQuery>::empty(),
            r.next_seq == 0,
            r.processed@ == Seq::<u64>::empty(),
            r.wf(),
    {
        Dispatcher { pending: Vec::new(), next_seq: 0, processed: Ghost(Seq::empty()) }
    }

    /// Enqueues a request behind every earlier submission and stamps it
    /// with the next sequence number. Nothing is coalesced and nothing is
    /// cancelled: a superseded request is still processed.
    pub fn submit(&mut self, query: Query)
        requires
            old(self).wf(),
            old(self).next_seq < u64::MAX,
        ensures
            final(self).pending@ == old(self).pending@.push(
                PendingQuery { seq_no: old(self).next_seq, query },
            ),
            final(self).next_seq == old(self).next_seq + 1,
            final(self).processed@ == old(self).processed@,
            final(self).wf(),
    {
        let stamp = self.next_seq;
        self.pending.push(PendingQuery { seq_no: stamp, query });
        self.next_seq = stamp + 1;
    }

    /// Takes up the oldest pending request, in submission order, or reports
    /// that none is waiting.
    pub fn next_request(&mut self) -> (r: Option<PendingQuery>)
        requires
            old(self).wf(),
        ensures
            old(self).pending@.len() == 0 ==> r is None && *final(self) == *old(self),
            old(self).pending@.len() > 0 ==> {
                &&& r == Some(old(self).pending@[0])
                &&& final(self).pending@ == old(self).pending@.drop_first()
                &&& final(self).processed@ == old(self).processed@.push(
                    old(self).pending@[0].seq_no,
                )
                &&& final(self).next_seq == old(self).next_seq
            },
            final(self).wf(),
    {
        if self.pending.len() == 0 {
            None
        } else {
            let p = self.pending.remove(0);
            proof {
                self.processed@ = self.processed@.push(p.seq_no);
                assert(old(self).pending@.drop_first() =~= old(self).pending@.remove(0));
            }
            Some(p)
        }
    }
}

/// Responses come back in submission order: at any point, the requests
/// taken up so far are exactly the first ones submitted, each identified by
/// its sequence number, in the order of submission.
pub proof fn lemma_order_preservation(d: Dispatcher)
    requires
        d.wf(),
    ensures
        forall|i: int| 0 <= i < d.processed@.len() ==> #[trigger] d.processed@[i] as int == i,
        forall|i: int, j: int|
            0 <= i < j < d.processed@.len() ==> d.processed@[i] < d.processed@[j],
{
}

/// Decides one request: an empty search text is answered at once with the
/// empty batch and the service is left alone; any other request becomes
/// exactly one service call with the request's own options.
pub fn plan(query: Query) -> (r: DispatchStep)
    ensures
        query.search@.len() == 0 <==> r is Local,
        r matches DispatchStep::Local(b) ==> {
            &&& b.search@ == Seq::<char>::empty()
            &&& b.offset == 0
            &&& b.number == 0
            &&& b.total == 0
            &&& b.entrys@.len() == 0
            &&& b.wf()
            &&& b.entries_match_flags()
        },
        r matches DispatchStep::Remote(q) ==> q == query,
{
    if query.search.as_str().is_empty() {
        DispatchStep::Local(Default::default())
    } else {
        DispatchStep::Remote(query)
    }
}

/// Packages what the service returned for `query` into the result batch:
/// the searched text and offset are echoed from the request, count, total,
/// sort order and flags from the reply, and each returned item is reduced
/// to the attributes the request asked for.
pub fn assemble(query: Query, reply: ServiceReply) -> (r: QueryResults)
    requires
        reply.wf(),
    ensures
        r.search == query.search,
        r.offset == query.offset,
        r.number == reply.items@.len(),
        r.total == reply.total,
        r.request_flags == reply.request_flags,
        r.sort_type == reply.sort_type,
        r.entrys@.len() == reply.items@.len(),
        forall|i: int|
            0 <= i < reply.items@.len() ==> r.entrys@[i] == entry_of(
                #[trigger] reply.items@[i],
                reply.request_flags,
            ),
        r.wf(),
        r.entries_match_flags(),
{
    let ServiceReply { total, request_flags, sort_type, mut items } = reply;
    let ghost all_items = items@;
    let mut entrys: Vec<crate::entry::QueryEntry> = Vec::new();
    while items.len() > 0
        invariant
            entrys@.len() + items@.len() == all_items.len(),
            items@ == all_items.subrange(entrys@.len() as int, all_items.len() as int),
            forall|i: int|
                0 <= i < entrys@.len() ==> entrys@[i] == entry_of(
                    #[trigger] all_items[i],
                    request_flags,
                ),
        decreases items@.len(),
    {
        let item = items.remove(0);
        entrys.push(item_to_entry(item, request_flags));
        proof {
            assert(items@ =~= all_items.subrange(entrys@.len() as int, all_items.len() as int));
        }
    }
    proof {
        assert forall|i: int|
            0 <= i < entrys@.len() implies crate::entry::entry_matches_flags(
            #[trigger] entrys@[i],
            request_flags,
        ) by {
            crate::entry::lemma_field_presence_matches_flags(all_items[i], request_flags);
        }
    }
    let number = entrys.len() as u32;
    QueryResults {
        search: query.search,
        offset: query.offset,
        number,
        total,
        request_flags,
        sort_type,
        entrys,
    }
}

} // verus!
