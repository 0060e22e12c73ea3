//! Laws over whole runs of the client's loops: sequences of events, each
//! taken by one step of `Client::run_step`, or of `Client::http_request`
//! and `HttpQueries::http_reply`.
use vstd::prelude::*;

use crate::client::{
    after_finish, after_http_reply, client_inv, request_command, run_step_spec,
    ClientView, RunActionView, RunEventView,
};
use crate::kv::CommandId;

verus! {

/// A benchmark run over `evs`: the state after it, and the action of each
/// step.
pub open spec fn run_trace(v: ClientView, evs: Seq<RunEventView>) -> (ClientView, Seq<RunActionView>)
    decreases evs.len(),
{
    if evs.len() == 0 {
        (v, Seq::empty())
    } else {
        let (w, acts) = run_trace(v, evs.drop_last());
        let (x, a) = run_step_spec(w, evs.last());
        (x, acts.push(a))
    }
}

/// The number of requests sent among `acts`.
pub open spec fn sends(acts: Seq<RunActionView>) -> nat
    decreases acts.len(),
{
    if acts.len() == 0 {
        0
    } else {
        sends(acts.drop_last()) + if acts.last() is Send {
            1nat
        } else {
            0nat
        }
    }
}

proof fn lemma_sends_bounded(acts: Seq<RunActionView>)
    ensures
        sends(acts) <= acts.len(),
    decreases acts.len(),
{
    if acts.len() > 0 {
        lemma_sends_bounded(acts.drop_last());
    }
}

proof fn lemma_run_trace_len(v: ClientView, evs: Seq<RunEventView>)
    ensures
        run_trace(v, evs).1.len() == evs.len(),
    decreases evs.len(),
{
    if evs.len() > 0 {
        lemma_run_trace_len(v, evs.drop_last());
    }
}

/// Over a benchmark run, requests go out under consecutive ids from the
/// client's next id on, each with the command its id and kind give, and
/// the next id ends one past the last one sent.
pub proof fn law_run_requests_consecutive(v: ClientView, evs: Seq<RunEventView>)
    requires
        v.next_request_id + evs.len() <= usize::MAX,
    ensures
        ({
            let (w, acts) = run_trace(v, evs);
            &&& acts.len() == evs.len()
            &&& w.next_request_id == v.next_request_id + sends(acts)
            &&& forall|j: int|
                #![trigger acts[j]]
                0 <= j < acts.len() ==> (acts[j] matches RunActionView::Send(id, cmd) ==> {
                    &&& id == v.next_request_id + sends(acts.take(j))
                    &&& evs[j] matches RunEventView::Request(w, _) && cmd == request_command(id, w)
                })
        }),
    decreases evs.len(),
{
    lemma_run_trace_len(v, evs);
    if evs.len() > 0 {
        let prev = evs.drop_last();
        law_run_requests_consecutive(v, prev);
        let (w0, acts0) = run_trace(v, prev);
        let (w, acts) = run_trace(v, evs);
        lemma_sends_bounded(acts0);
        assert(acts.drop_last() =~= acts0);
        assert forall|j: int|
            #![trigger acts[j]]
            0 <= j < acts.len() implies (acts[j] matches RunActionView::Send(id, cmd) ==> {
                &&& id == v.next_request_id + sends(acts.take(j))
                &&& evs[j] matches RunEventView::Request(w, _) && cmd == request_command(id, w)
            }) by {
            if j < acts.len() - 1 {
                assert(acts[j] == acts0[j]);
                assert(acts.take(j) =~= acts0.take(j));
                assert(evs[j] == prev[j]);
            } else {
                assert(acts.take(j) =~= acts0);
            }
        }
    }
}

/// Once the final request count is fixed it stays fixed, and no request
/// follows it: a step taken after it never sends.
pub proof fn law_no_request_after_final(v: ClientView, evs: Seq<RunEventView>)
    ensures
        ({
            let (w, acts) = run_trace(v, evs);
            &&& v.final_request_count is Some ==> w.final_request_count is Some
            &&& forall|j: int|
                #![trigger acts[j]]
                0 <= j < acts.len() && run_trace(v, evs.take(j)).0.final_request_count is Some
                    ==> !(acts[j] is Send)
        }),
    decreases evs.len(),
{
    lemma_run_trace_len(v, evs);
    if evs.len() > 0 {
        let prev = evs.drop_last();
        law_no_request_after_final(v, prev);
        let (w0, acts0) = run_trace(v, prev);
        let (w, acts) = run_trace(v, evs);
        assert forall|j: int|
            #![trigger acts[j]]
            0 <= j < acts.len() && run_trace(v, evs.take(j)).0.final_request_count is Some
                implies !(acts[j] is Send) by {
            if j < acts.len() - 1 {
                assert(acts[j] == acts0[j]);
                assert(evs.take(j) =~= prev.take(j));
            } else {
                assert(evs.take(j) =~= prev);
            }
        }
    }
}

/// The end of the last interval ends the run at once, with the final
/// request count equal to the number of requests sent.
pub proof fn law_finish_ends_run(v: ClientView)
    requires
        client_inv(v),
        v.requests.len() <= usize::MAX,
    ensures
        run_step_spec(v, RunEventView::IntervalEnd(false)) == (
            after_finish(v),
            RunActionView::Stop,
        ),
        after_finish(v).final_request_count == Some(v.requests.len() as usize),
{
}

/// The state of the HTTP loop: the client's next id, and the queries that
/// wait for a reply.
pub ghost struct HttpLoopView {
    pub next_request_id: usize,
    pub waiting: Set<CommandId>,
}

/// What wakes the HTTP loop: an HTTP request, or a server's reply with the
/// id it carries (none for a start signal).
pub ghost enum HttpEventView {
    Trigger,
    Reply(Option<CommandId>),
}

/// What the HTTP loop does: send a query under an id, answer the query of
/// an id, or nothing.
pub ghost enum HttpActionView {
    Sent(CommandId),
    Answered(CommandId),
    Nothing,
}

/// One step of the HTTP loop, as `Client::http_request` and
/// `HttpQueries::http_reply` take it.
pub open spec fn http_step_spec(s: HttpLoopView, e: HttpEventView) -> (HttpLoopView, HttpActionView) {
    match e {
        HttpEventView::Trigger => (
            HttpLoopView {
                next_request_id: (s.next_request_id + 1) as usize,
                waiting: s.waiting.insert(s.next_request_id),
            },
            HttpActionView::Sent(s.next_request_id),
        ),
        HttpEventView::Reply(id) => {
            let (waiting, answered) = after_http_reply(s.waiting, id);
            (
                HttpLoopView { waiting, ..s },
                match answered {
                    Some(a) => HttpActionView::Answered(a),
                    None => HttpActionView::Nothing,
                },
            )
        },
    }
}

/// An HTTP loop over `evs`: the state after it, and the action of each step.
pub open spec fn http_trace(s: HttpLoopView, evs: Seq<HttpEventView>) -> (HttpLoopView, Seq<HttpActionView>)
    decreases evs.len(),
{
    if evs.len() == 0 {
        (s, Seq::empty())
    } else {
        let (t, acts) = http_trace(s, evs.drop_last());
        let (u, a) = http_step_spec(t, evs.last());
        (u, acts.push(a))
    }
}

/// The ids of the queries sent among `acts`.
pub open spec fn sent_ids(acts: Seq<HttpActionView>) -> Set<CommandId>
    decreases acts.len(),
{
    if acts.len() == 0 {
        Set::empty()
    } else {
        match acts.last() {
            HttpActionView::Sent(id) => sent_ids(acts.drop_last()).insert(id),
            _ => sent_ids(acts.drop_last()),
        }
    }
}

/// The ids of the queries answered among `acts`.
pub open spec fn answered_ids(acts: Seq<HttpActionView>) -> Set<CommandId>
    decreases acts.len(),
{
    if acts.len() == 0 {
        Set::empty()
    } else {
        match acts.last() {
            HttpActionView::Answered(id) => answered_ids(acts.drop_last()).insert(id),
            _ => answered_ids(acts.drop_last()),
        }
    }
}

/// Over a whole HTTP loop that starts with no query waiting: every query
/// is sent under a fresh id; a query is answered only after it was sent and
/// only by a reply carrying its id; and no query is answered twice. The
/// queries still waiting are those sent and not answered.
pub proof fn law_http_run_answers_once(s: HttpLoopView, evs: Seq<HttpEventView>)
    requires
        s.waiting == Set::<CommandId>::empty(),
        s.next_request_id + evs.len() <= usize::MAX,
    ensures
        ({
            let (t, acts) = http_trace(s, evs);
            &&& acts.len() == evs.len()
            &&& t.waiting == sent_ids(acts).difference(answered_ids(acts))
            &&& forall|j: int|
                #![trigger acts[j]]
                0 <= j < acts.len() ==> {
                    &&& acts[j] matches HttpActionView::Sent(id) ==> !sent_ids(acts.take(j)).contains(id)
                    &&& acts[j] matches HttpActionView::Answered(id) ==> {
                        &&& sent_ids(acts.take(j)).contains(id)
                        &&& !answered_ids(acts.take(j)).contains(id)
                        &&& evs[j] == HttpEventView::Reply(Some(id))
                    }
                }
        }),
{
    lemma_http_trace(s, evs);
}

proof fn lemma_http_trace(s: HttpLoopView, evs: Seq<HttpEventView>)
    requires
        s.waiting == Set::<CommandId>::empty(),
        s.next_request_id + evs.len() <= usize::MAX,
    ensures
        ({
            let (t, acts) = http_trace(s, evs);
            &&& acts.len() == evs.len()
            &&& t.waiting == sent_ids(acts).difference(answered_ids(acts))
            &&& answered_ids(acts).subset_of(sent_ids(acts))
            &&& s.next_request_id <= t.next_request_id <= s.next_request_id + evs.len()
            &&& forall|id: CommandId| sent_ids(acts).contains(id) ==> id < t.next_request_id
            &&& forall|j: int|
                #![trigger acts[j]]
                0 <= j < acts.len() ==> {
                    &&& acts[j] matches HttpActionView::Sent(id) ==> !sent_ids(acts.take(j)).contains(id)
                    &&& acts[j] matches HttpActionView::Answered(id) ==> {
                        &&& sent_ids(acts.take(j)).contains(id)
                        &&& !answered_ids(acts.take(j)).contains(id)
                        &&& evs[j] == HttpEventView::Reply(Some(id))
                    }
                }
        }),
    decreases evs.len(),
{
    let (t, acts) = http_trace(s, evs);
    if evs.len() == 0 {
        assert(t.waiting =~= sent_ids(acts).difference(answered_ids(acts)));
    } else {
        let prev = evs.drop_last();
        lemma_http_trace(s, prev);
        let (t0, acts0) = http_trace(s, prev);
        assert(acts.drop_last() =~= acts0);
        let a = acts.last();
        let sent0 = sent_ids(acts0);
        let ans0 = answered_ids(acts0);
        match evs.last() {
            HttpEventView::Trigger => {
                let id = t0.next_request_id;
                assert(a == HttpActionView::Sent(id));
                assert(!sent0.contains(id));
                assert(sent_ids(acts) == sent0.insert(id));
                assert(answered_ids(acts) == ans0);
                assert(t.waiting =~= sent_ids(acts).difference(answered_ids(acts)));
            },
            HttpEventView::Reply(rid) => {
                assert(sent_ids(acts) == sent0);
                match rid {
                    Some(i) => {
                        if t0.waiting.contains(i) {
                            assert(a == HttpActionView::Answered(i));
                            assert(answered_ids(acts) == ans0.insert(i));
                            assert(t.waiting =~= sent_ids(acts).difference(answered_ids(acts)));
                        } else {
                            assert(answered_ids(acts) == ans0);
                        }
                    },
                    None => {
                        assert(answered_ids(acts) == ans0);
                    },
                }
            },
        }
        assert forall|j: int|
            #![trigger acts[j]]
            0 <= j < acts.len() implies {
                &&& acts[j] matches HttpActionView::Sent(id) ==> !sent_ids(acts.take(j)).contains(id)
                &&& acts[j] matches HttpActionView::Answered(id) ==> {
                    &&& sent_ids(acts.take(j)).contains(id)
                    &&& !answered_ids(acts.take(j)).contains(id)
                    &&& evs[j] == HttpEventView::Reply(Some(id))
                }
            } by {
            if j < acts.len() - 1 {
                assert(acts[j] == acts0[j]);
                assert(acts.take(j) =~= acts0.take(j));
                assert(evs[j] == prev[j]);
            } else {
                assert(acts.take(j) =~= acts0);
            }
        }
    }
}

} // verus!
