//! A client of the replicated store: the decisions of its request loops.
//! The loops themselves (waiting on the network, the clock and HTTP) run
//! outside; each step they take is a call here.
use vstd::hash_set::HashSetWithView;
use vstd::prelude::*;
use vstd::string::*;

use crate::client_data::{ids_below, record_response, ClientData, RequestRecord};
use crate::decimal::{nat_decimal, u64_to_decimal};
use crate::http_client::{answer_for_reply, is_success, opt_view, KvResp};
use crate::kv::{ClientId, ClientMessage, CommandId, KVCommand, KVCommandView, NodeId, ServerMessage, reply_command_id};

verus! {

broadcast use vstd::std_specs::hash::group_hash_axioms;

/// The state of a client, as the contracts speak of it.
pub ghost struct ClientView {
    pub id: ClientId,
    pub active_server: NodeId,
    pub final_request_count: Option<usize>,
    pub next_request_id: usize,
    pub requests: Seq<RequestRecord>,
    pub pending: Set<CommandId>,
}

/// A client's state is consistent: every logged request has an id below
/// the next one to be given out.
pub open spec fn client_inv(v: ClientView) -> bool {
    ids_below(v.requests, v.next_request_id as int)
}

/// The command of benchmark request `id`: a write puts the id, in decimal,
/// under itself as key; a read gets that key.
pub open spec fn request_command(id: CommandId, is_write: bool) -> KVCommandView {
    if is_write {
        KVCommandView::Put(nat_decimal(id as nat), nat_decimal(id as nat))
    } else {
        KVCommandView::Get(nat_decimal(id as nat))
    }
}

/// The state after a benchmark request is sent at `now`: it is logged under
/// the next id, and the next id is one higher.
pub open spec fn after_request(v: ClientView, is_write: bool, now: i64) -> ClientView {
    ClientView {
        next_request_id: (v.next_request_id + 1) as usize,
        requests: v.requests.push(
            RequestRecord {
                command_id: v.next_request_id,
                request_time: now,
                write: is_write,
                response_time: None,
            },
        ),
        ..v
    }
}

/// The state after a server's reply during a run: a reply to a command is
/// logged at `now`; a start signal changes nothing.
pub open spec fn after_reply(v: ClientView, id: Option<CommandId>, now: i64) -> ClientView {
    match id {
        Some(i) => ClientView { requests: record_response(v.requests, i, now), ..v },
        None => v,
    }
}

/// Whether a run that stops issuing requests once `final_request_count` is
/// set is over.
pub open spec fn run_finished_spec(v: ClientView) -> bool {
    match v.final_request_count {
        Some(count) => v.requests.len() >= count,
        None => false,
    }
}

/// The state after the request phase ends: the final request count becomes
/// the number of requests sent.
pub open spec fn after_finish(v: ClientView) -> ClientView {
    ClientView { final_request_count: Some(v.requests.len() as usize), ..v }
}

/// What wakes a benchmark run.
#[derive(Debug, PartialEq, Eq)]
pub enum RunEvent {
    /// A message from the server.
    ServerReply(ServerMessage),
    /// The request timer fired; the request would be a write or a read.
    RequestTick(bool),
    /// The current interval ended; whether another one follows.
    IntervalEnd(bool),
}

/// An event of a run, with the time it came at, as the contracts see it.
pub ghost enum RunEventView {
    Reply(Option<CommandId>, i64),
    Request(bool, i64),
    IntervalEnd(bool),
}

/// The view of event `ev` coming at `now`.
pub open spec fn run_event_view(ev: RunEvent, now: i64) -> RunEventView {
    match ev {
        RunEvent::ServerReply(msg) => RunEventView::Reply(reply_command_id(msg), now),
        RunEvent::RequestTick(w) => RunEventView::Request(w, now),
        RunEvent::IntervalEnd(more) => RunEventView::IntervalEnd(more),
    }
}

/// What a benchmark run does next.
#[derive(Debug, PartialEq, Eq)]
pub enum RunAction {
    /// Send this message to the server.
    Send(ClientMessage),
    /// Keep waiting.
    Continue,
    /// The run is over.
    Stop,
}

/// An action with its message taken as id and command view.
pub ghost enum RunActionView {
    Send(CommandId, KVCommandView),
    Continue,
    Stop,
}

impl View for RunAction {
    type V = RunActionView;

    open spec fn view(&self) -> RunActionView {
        match self {
            RunAction::Send(ClientMessage::Append(id, cmd)) => RunActionView::Send(*id, cmd@),
            RunAction::Continue => RunActionView::Continue,
            RunAction::Stop => RunActionView::Stop,
        }
    }
}

/// Continue, or stop once the run is over.
pub open spec fn stop_if_finished(v: ClientView) -> RunActionView {
    if run_finished_spec(v) {
        RunActionView::Stop
    } else {
        RunActionView::Continue
    }
}

/// One step of a benchmark run. A reply is logged, and the run stops if it
/// is over. A request tick sends the next request, unless the final request
/// count is fixed, after which no request is sent. The end of the last
/// interval fixes the final request count and stops the run if it is over;
/// the end of another interval only switches to the next one.
pub open spec fn run_step_spec(v: ClientView, e: RunEventView) -> (ClientView, RunActionView) {
    match e {
        RunEventView::Reply(id, now) => {
            let w = after_reply(v, id, now);
            (w, stop_if_finished(w))
        },
        RunEventView::Request(is_write, now) => if v.final_request_count is None {
            (
                after_request(v, is_write, now),
                RunActionView::Send(v.next_request_id, request_command(v.next_request_id, is_write)),
            )
        } else {
            (v, RunActionView::Continue)
        },
        RunEventView::IntervalEnd(more) => if more {
            (v, RunActionView::Continue)
        } else {
            let w = after_finish(v);
            (w, stop_if_finished(w))
        },
    }
}

/// The HTTP queries that wait for a server's reply, by command id.
pub struct HttpQueries {
    waiting: HashSetWithView<usize>,
}

impl View for HttpQueries {
    type V = Set<CommandId>;

    closed spec fn view(&self) -> Set<CommandId> {
        self.waiting@
    }
}

/// Every waiting query has an id below `next`.
pub open spec fn waiting_below(waiting: Set<CommandId>, next: usize) -> bool {
    forall|id: CommandId| waiting.contains(id) ==> id < next
}

/// A server's reply routed to the HTTP query waiting for it: the waiting
/// set after it, and the id of the query it answers, if one is waiting.
pub open spec fn after_http_reply(waiting: Set<CommandId>, id: Option<CommandId>) -> (Set<CommandId>, Option<CommandId>) {
    match id {
        Some(i) => if waiting.contains(i) {
            (waiting.remove(i), Some(i))
        } else {
            (waiting, None)
        },
        None => (waiting, None),
    }
}

/// The id in an answer to an HTTP query, if there is one.
pub open spec fn answered_id(r: Option<(CommandId, KvResp)>) -> Option<CommandId> {
    match r {
        Some(p) => Some(p.0),
        None => None,
    }
}

impl HttpQueries {
    /// No query waits.
    pub fn new() -> (q: Self)
        ensures
            q@ == Set::<CommandId>::empty(),
    {
        let q = HttpQueries { waiting: HashSetWithView::new() };
        assert(q@ =~= Set::<CommandId>::empty());
        q
    }

    /// Routes a server's reply to the HTTP query that waits for it: the id
    /// of that query and its answer, which then no longer waits.
    pub fn http_reply(&mut self, msg: ServerMessage) -> (r: Option<(CommandId, KvResp)>)
        ensures
            (final(self)@, answered_id(r)) == after_http_reply(old(self)@, reply_command_id(msg)),
            r matches Some(p) ==> (msg is Write ==> is_success(p.1, None)) && (
            msg matches ServerMessage::Read(_, v) ==> is_success(p.1, opt_view(v))),
    {
        let id = match &msg {
            ServerMessage::Write(id) => *id,
            ServerMessage::Read(id, _) => *id,
            ServerMessage::StartSignal(_) => {
                return None;
            },
        };
        let ghost before = self.waiting@;
        let was_waiting = self.waiting.remove(&id);
        if !was_waiting {
            assert(self.waiting@ =~= before);
        }
        if was_waiting {
            Some((id, answer_for_reply(msg)))
        } else {
            None
        }
    }
}

/// What the client does for a server reply that may belong to a waiting
/// HTTP query.
#[derive(Debug, PartialEq, Eq)]
pub enum HttpNotice {
    /// The query `id` is answered with the value read.
    Respond(CommandId, String),
    /// The query `id` was waiting, and the reply is not a read with a value.
    Unexpected(CommandId),
    /// No query waits for this reply.
    NotPending,
}

/// When a client starts relative to the scheduled time.
#[derive(Debug, PartialEq, Eq)]
pub struct SyncPlan {
    /// Milliseconds from now to the scheduled start (negative if passed).
    pub sync_time: i64,
    /// How long to sleep first, if the start lies ahead.
    pub sleep_ms: Option<u64>,
}

/// A client of the store.
pub struct Client {
    id: ClientId,
    active_server: NodeId,
    final_request_count: Option<usize>,
    next_request_id: usize,
    client_data: ClientData,
    pending_http_queries: HashSetWithView<usize>,
}

impl View for Client {
    type V = ClientView;

    closed spec fn view(&self) -> ClientView {
        ClientView {
            id: self.id,
            active_server: self.active_server,
            final_request_count: self.final_request_count,
            next_request_id: self.next_request_id,
            requests: self.client_data@,
            pending: self.pending_http_queries@,
        }
    }
}

impl Client {
    /// The client's well-formedness: its state is consistent and its log is.
    pub closed spec fn wf(&self) -> bool {
        &&& client_inv(self@)
        &&& self.client_data.wf()
    }

    /// A client of the server `server_id`, which it also takes as its own id.
    pub fn new(server_id: NodeId) -> (c: Self)
        ensures
            c.wf(),
            c@ == (ClientView {
                id: server_id,
                active_server: server_id,
                final_request_count: None,
                next_request_id: 0,
                requests: Seq::empty(),
                pending: Set::empty(),
            }),
    {
        let c = Client {
            id: server_id,
            active_server: server_id,
            final_request_count: None,
            next_request_id: 0,
            client_data: ClientData::new(),
            pending_http_queries: HashSetWithView::new(),
        };
        assert(c@.pending =~= Set::<CommandId>::empty());
        c
    }

    /// The client's id.
    pub fn id(&self) -> (id: ClientId)
        ensures
            id == self@.id,
    {
        self.id
    }

    /// The server the client sends to.
    pub fn active_server(&self) -> (s: NodeId)
        ensures
            s == self@.active_server,
    {
        self.active_server
    }

    /// The request count at which the run ends, once fixed.
    pub fn final_request_count(&self) -> (n: Option<usize>)
        ensures
            n == self@.final_request_count,
    {
        self.final_request_count
    }

    /// The id the next request gets.
    pub fn next_request_id(&self) -> (id: usize)
        ensures
            id == self@.next_request_id,
    {
        self.next_request_id
    }

    /// The log of sent requests.
    pub fn client_data(&self) -> (d: &ClientData)
        requires
            self.wf(),
        ensures
            d@ == self@.requests,
            d.wf(),
    {
        &self.client_data
    }

    /// The next request of a run: a write puts the request's id, in
    /// decimal, under itself as key; a read gets that key. It is logged as
    /// sent at `now`, and the next id is one higher.
    pub fn next_request(&mut self, is_write: bool, now: i64) -> (msg: ClientMessage)
        requires
            old(self).wf(),
            old(self)@.next_request_id < usize::MAX,
        ensures
            final(self).wf(),
            msg matches ClientMessage::Append(id, cmd) && id == old(self)@.next_request_id && cmd@
                == request_command(id, is_write),
            final(self)@ == after_request(old(self)@, is_write, now),
    {
        let id = self.next_request_id;
        let key = u64_to_decimal(id as u64);
        let cmd = if is_write {
            let value = key.clone();
            KVCommand::Put(key, value)
        } else {
            KVCommand::Get(key)
        };
        self.client_data.new_request(id, is_write, now);
        self.next_request_id = id + 1;
        ClientMessage::Append(id, cmd)
    }

    /// A read of the key `value`, in decimal, under the next id; logged as a
    /// read sent at `now`.
    pub fn custom_request(&mut self, value: u32, now: i64) -> (msg: ClientMessage)
        requires
            old(self).wf(),
            old(self)@.next_request_id < usize::MAX,
        ensures
            final(self).wf(),
            msg matches ClientMessage::Append(id, cmd) && id == old(self)@.next_request_id && cmd@
                == KVCommandView::Get(nat_decimal(value as nat)),
            final(self)@ == after_request(old(self)@, false, now),
    {
        let id = self.next_request_id;
        let cmd = KVCommand::Get(u64_to_decimal(value as u64));
        self.client_data.new_request(id, false, now);
        self.next_request_id = id + 1;
        ClientMessage::Append(id, cmd)
    }

    /// Takes a server's reply during a run: a start signal is ignored, any
    /// other reply is logged against the request with its id, if logged.
    pub fn handle_server_message(&mut self, msg: ServerMessage, now: i64)
        requires
            old(self).wf(),
        ensures
            final(self).wf(),
            final(self)@ == after_reply(old(self)@, reply_command_id(msg), now),
    {
        match msg {
            ServerMessage::StartSignal(_) => {},
            server_response => {
                let cmd_id = server_response.command_id();
                self.client_data.new_response(cmd_id, now);
            },
        }
    }

    /// Whether the run is over: the final request count is fixed and that
    /// many requests have been sent.
    pub fn run_finished(&self) -> (b: bool)
        ensures
            b == run_finished_spec(self@),
    {
        match self.final_request_count {
            Some(count) => self.client_data.request_count() >= count,
            None => false,
        }
    }

    /// Ends the request phase: the final request count becomes the number
    /// of requests sent so far.
    pub fn finish_requests(&mut self)
        requires
            old(self).wf(),
        ensures
            final(self).wf(),
            final(self)@ == after_finish(old(self)@),
    {
        self.final_request_count = Some(self.client_data.request_count());
    }

    fn stop_if_finished(&self) -> (a: RunAction)
        ensures
            a@ == stop_if_finished(self@),
    {
        if self.run_finished() {
            RunAction::Stop
        } else {
            RunAction::Continue
        }
    }

    /// One step of a benchmark run, for an event that came at `now`.
    pub fn run_step(&mut self, ev: RunEvent, now: i64) -> (a: RunAction)
        requires
            old(self).wf(),
            ev is RequestTick ==> old(self)@.final_request_count is Some || old(self)@.next_request_id
                < usize::MAX,
        ensures
            final(self).wf(),
            (final(self)@, a@) == run_step_spec(old(self)@, run_event_view(ev, now)),
    {
        match ev {
            RunEvent::ServerReply(msg) => {
                self.handle_server_message(msg, now);
                self.stop_if_finished()
            },
            RunEvent::RequestTick(is_write) => {
                if self.final_request_count.is_none() {
                    RunAction::Send(self.next_request(is_write, now))
                } else {
                    RunAction::Continue
                }
            },
            RunEvent::IntervalEnd(more) => {
                if more {
                    RunAction::Continue
                } else {
                    self.finish_requests();
                    self.stop_if_finished()
                }
            },
        }
    }

    /// Turns an HTTP request's command into a message to the server under
    /// the next id, which then waits in `queries`. Nothing else of the
    /// client changes.
    pub fn http_request(&mut self, queries: &mut HttpQueries, cmd: KVCommand) -> (msg: ClientMessage)
        requires
            old(self).wf(),
            waiting_below(old(queries)@, old(self)@.next_request_id),
            old(self)@.next_request_id < usize::MAX,
        ensures
            final(self).wf(),
            !old(queries)@.contains(old(self)@.next_request_id),
            msg == ClientMessage::Append(old(self)@.next_request_id, cmd),
            final(self)@ == (ClientView {
                next_request_id: (old(self)@.next_request_id + 1) as usize,
                ..old(self)@
            }),
            final(queries)@ == old(queries)@.insert(old(self)@.next_request_id),
            waiting_below(final(queries)@, final(self)@.next_request_id),
    {
        let cmd_id: CommandId = self.next_request_id;
        self.next_request_id = cmd_id + 1;
        queries.waiting.insert(cmd_id);
        ClientMessage::Append(cmd_id, cmd)
    }

    /// Takes a server's reply when HTTP queries may wait in the client's
    /// own pending set: a waiting query is released and answered with the
    /// value of a read, or reported as answered by something else; the
    /// reply is logged at `now` either way.
    pub fn handle_server_message_with_http(&mut self, msg: ServerMessage, now: i64) -> (n: HttpNotice)
        requires
            old(self).wf(),
            !(msg is StartSignal),
        ensures
            final(self).wf(),
            ({
                let id = reply_command_id(msg)->0;
                &&& final(self)@ == ClientView {
                    pending: old(self)@.pending.remove(id),
                    requests: record_response(old(self)@.requests, id, now),
                    ..old(self)@
                }
                &&& !old(self)@.pending.contains(id) ==> n is NotPending
                &&& old(self)@.pending.contains(id) ==> match msg {
                    ServerMessage::Read(_, Some(v)) => n matches HttpNotice::Respond(i, s) && i == id
                        && s@ == v@,
                    _ => n == HttpNotice::Unexpected(id),
                }
            }),
    {
        let cmd_id = msg.command_id();
        let was_pending = self.pending_http_queries.remove(&cmd_id);
        self.client_data.new_response(cmd_id, now);
        if was_pending {
            match msg {
                ServerMessage::Read(_, Some(value)) => HttpNotice::Respond(cmd_id, value),
                _ => HttpNotice::Unexpected(cmd_id),
            }
        } else {
            HttpNotice::NotPending
        }
    }

    /// When to start, given the scheduled start and the current time (both
    /// in milliseconds since the epoch): the distance to the start, and a
    /// sleep of that length when it lies ahead.
    pub fn sync_plan(scheduled_start_utc_ms: i64, now_ms: i64) -> (p: SyncPlan)
        requires
            i64::MIN <= scheduled_start_utc_ms - now_ms <= i64::MAX,
        ensures
            p.sync_time == scheduled_start_utc_ms - now_ms,
            p.sync_time > 0 ==> p.sleep_ms == Some(p.sync_time as u64),
            p.sync_time <= 0 ==> p.sleep_ms is None,
    {
        let until = scheduled_start_utc_ms - now_ms;
        if until > 0 {
            SyncPlan { sync_time: until, sleep_ms: Some(until as u64) }
        } else {
            SyncPlan { sync_time: until, sleep_ms: None }
        }
    }
}

} // verus!
