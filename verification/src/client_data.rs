//! The log a client keeps of the requests it sent and the replies it got,
//! keyed by command id.
use vstd::prelude::*;

use crate::kv::CommandId;

verus! {

/// What the client records of one request: its command id, when it was
/// sent, whether it was a write, and when its reply came, if it did.
#[derive(Clone, Copy, Debug, PartialEq, Eq)]
pub struct RequestRecord {
    pub command_id: CommandId,
    pub request_time: i64,
    pub write: bool,
    pub response_time: Option<i64>,
}

/// The records' command ids grow strictly along the log, so no id is
/// logged twice.
pub open spec fn ids_increasing(s: Seq<RequestRecord>) -> bool {
    forall|i: int, j: int| 0 <= i < j < s.len() ==> s[i].command_id < s[j].command_id
}

/// Every logged id is below `bound`.
pub open spec fn ids_below(s: Seq<RequestRecord>, bound: int) -> bool {
    forall|i: int| 0 <= i < s.len() ==> s[i].command_id < bound
}

/// Whether a request with command id `id` is in the log.
pub open spec fn logged(s: Seq<RequestRecord>, id: CommandId) -> bool {
    exists|i: int| 0 <= i < s.len() && s[i].command_id == id
}

/// The log after a reply to command `id` at `now`: the first reply to a
/// logged request is recorded on it; a later reply, or a reply to an id
/// that is not logged, changes nothing.
pub open spec fn record_response(s: Seq<RequestRecord>, id: CommandId, now: i64) -> Seq<RequestRecord> {
    Seq::new(
        s.len(),
        |i: int|
            if s[i].command_id == id && s[i].response_time is None {
                RequestRecord { response_time: Some(now), ..s[i] }
            } else {
                s[i]
            },
    )
}

/// The number of records that have a reply.
pub open spec fn answered_count(s: Seq<RequestRecord>) -> nat
    decreases s.len(),
{
    if s.len() == 0 {
        0
    } else {
        answered_count(s.drop_last()) + if s.last().response_time is Some {
            1nat
        } else {
            0nat
        }
    }
}

pub(crate) proof fn lemma_answered_bounded(s: Seq<RequestRecord>)
    ensures
        answered_count(s) <= s.len(),
    decreases s.len(),
{
    if s.len() > 0 {
        lemma_answered_bounded(s.drop_last());
    }
}

proof fn lemma_answered_push(s: Seq<RequestRecord>, r: RequestRecord)
    requires
        r.response_time is None,
    ensures
        answered_count(s.push(r)) == answered_count(s),
{
    assert(s.push(r).drop_last() =~= s);
}

proof fn lemma_answered_update(s: Seq<RequestRecord>, k: int, r: RequestRecord)
    requires
        0 <= k < s.len(),
        s[k].response_time is None,
        r.response_time is Some,
    ensures
        answered_count(s.update(k, r)) == answered_count(s) + 1,
    decreases s.len(),
{
    let u = s.update(k, r);
    if k == s.len() - 1 {
        assert(u.drop_last() =~= s.drop_last());
    } else {
        lemma_answered_update(s.drop_last(), k, r);
        assert(u.drop_last() =~= s.drop_last().update(k, r));
    }
}

/// The log of the requests a client sent.
pub struct ClientData {
    request_data: Vec<RequestRecord>,
    response_count: usize,
}

impl View for ClientData {
    type V = Seq<RequestRecord>;

    closed spec fn view(&self) -> Seq<RequestRecord> {
        self.request_data@
    }
}

impl ClientData {
    /// The log's invariant: ids grow along it, and the reply counter counts
    /// the records that have a reply.
    pub closed spec fn wf(&self) -> bool {
        &&& self.response_count as nat == answered_count(self.request_data@)
        &&& ids_increasing(self.request_data@)
    }

    /// An empty log.
    pub fn new() -> (d: Self)
        ensures
            d.wf(),
            d@ == Seq::<RequestRecord>::empty(),
    {
        ClientData { request_data: Vec::new(), response_count: 0 }
    }

    /// Records request `id`, sent at `now`; its id is above every logged one.
    pub fn new_request(&mut self, id: CommandId, is_write: bool, now: i64)
        requires
            old(self).wf(),
            ids_below(old(self)@, id as int),
        ensures
            final(self).wf(),
            final(self)@ == old(self)@.push(
                RequestRecord { command_id: id, request_time: now, write: is_write, response_time: None },
            ),
    {
        let r = RequestRecord { command_id: id, request_time: now, write: is_write, response_time: None };
        proof {
            lemma_answered_push(self.request_data@, r);
        }
        self.request_data.push(r);
    }

    /// The position of request `id` in the log, if it is logged.
    pub fn position(&self, id: CommandId) -> (p: Option<usize>)
        ensures
            p is None <==> !logged(self@, id),
            p matches Some(k) ==> k < self@.len() && self@[k as int].command_id == id,
    {
        let len = self.request_data.len();
        let mut k: usize = 0;
        while k < len
            invariant
                k <= len,
                len == self@.len(),
                forall|i: int| 0 <= i < k ==> self@[i].command_id != id,
            decreases len - k,
        {
            if self.request_data[k].command_id == id {
                return Some(k);
            }
            k = k + 1;
        }
        None
    }

    /// Records the reply to request `id`, received at `now`.
    pub fn new_response(&mut self, id: CommandId, now: i64)
        requires
            old(self).wf(),
        ensures
            final(self).wf(),
            final(self)@ == record_response(old(self)@, id, now),
    {
        let ghost s = self.request_data@;
        match self.position(id) {
            Some(k) => {
                let rec = self.request_data[k];
                if rec.response_time.is_none() {
                    let updated = RequestRecord { response_time: Some(now), ..rec };
                    // The log's length fits a usize, and bounds the counter.
                    let _len = self.request_data.len();
                    proof {
                        lemma_answered_update(s, k as int, updated);
                        lemma_answered_bounded(s.update(k as int, updated));
                    }
                    self.request_data.set(k, updated);
                    self.response_count = self.response_count + 1;
                    assert(self.request_data@ =~= record_response(s, id, now));
                } else {
                    assert(s =~= record_response(s, id, now));
                }
            },
            None => {
                assert(s =~= record_response(s, id, now));
            },
        }
    }

    /// The number of requests sent.
    pub fn request_count(&self) -> (n: usize)
        ensures
            n == self@.len(),
    {
        self.request_data.len()
    }

    /// The number of requests that have a reply.
    pub fn response_count(&self) -> (n: usize)
        requires
            self.wf(),
        ensures
            n == answered_count(self@),
    {
        self.response_count
    }

    /// The record at position `k` of the log.
    pub fn record(&self, k: usize) -> (r: RequestRecord)
        requires
            k < self@.len(),
        ensures
            r == self@[k as int],
    {
        self.request_data[k]
    }
}

/// There are never more answered requests than requests.
pub proof fn law_answered_at_most_sent(s: Seq<RequestRecord>)
    ensures
        answered_count(s) <= s.len(),
{
    lemma_answered_bounded(s);
}

/// A reply to a logged request marks it answered, and the first reply's
/// time stays; nothing else in the log changes.
pub proof fn law_reply_recorded(s: Seq<RequestRecord>, k: int, t1: i64, t2: i64)
    requires
        ids_increasing(s),
        0 <= k < s.len(),
    ensures
        record_response(s, s[k].command_id, t1)[k].response_time is Some,
        record_response(record_response(s, s[k].command_id, t1), s[k].command_id, t2)
            == record_response(s, s[k].command_id, t1),
        forall|i: int| 0 <= i < s.len() && i != k ==> record_response(s, s[k].command_id, t1)[i] == s[i],
{
    let id = s[k].command_id;
    let r1 = record_response(s, id, t1);
    assert(record_response(r1, id, t2) =~= r1);
}

/// A reply to an id that is not logged leaves the log as it is.
pub proof fn law_unlogged_reply_ignored(s: Seq<RequestRecord>, id: CommandId, now: i64)
    requires
        !logged(s, id),
    ensures
        record_response(s, id, now) == s,
{
    assert(record_response(s, id, now) =~= s);
}

/// The first reply to a logged request sets its reply time to the time the
/// reply came, keeps the rest of its record, and adds one to the number of
/// answered requests; a reply to a request that already has one changes
/// nothing.
pub proof fn law_first_reply_counts_once(s: Seq<RequestRecord>, k: int, now: i64)
    requires
        ids_increasing(s),
        0 <= k < s.len(),
    ensures
        record_response(s, s[k].command_id, now).len() == s.len(),
        s[k].response_time is None ==> record_response(s, s[k].command_id, now)[k] == (RequestRecord {
            command_id: s[k].command_id,
            request_time: s[k].request_time,
            write: s[k].write,
            response_time: Some(now),
        }),
        s[k].response_time is None ==> answered_count(record_response(s, s[k].command_id, now))
            == answered_count(s) + 1,
        s[k].response_time is Some ==> record_response(s, s[k].command_id, now) == s,
{
    let id = s[k].command_id;
    let after = record_response(s, id, now);
    if s[k].response_time is None {
        let r = RequestRecord { response_time: Some(now), ..s[k] };
        assert(after =~= s.update(k, r));
        lemma_answered_update(s, k, r);
    } else {
        assert(after =~= s);
    }
}

} // verus!
