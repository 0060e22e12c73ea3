//! A Maelstrom node that forwards the `lin-kv` workload to a client's HTTP
//! shim: the decisions for each Maelstrom request, and the reply each shim
//! answer becomes. The messages and the HTTP calls themselves travel outside.
use vstd::prelude::*;
use vstd::string::*;

use crate::decimal::{int_decimal, nat_decimal, parse_i64, parse_i64_spec, parse_u16, parse_u16_spec, push_u64_decimal, i64_to_decimal};
use crate::http_client::{CasBody, KvResp, PutBody};
use crate::text::push_char;

verus! {

/// A field of a Maelstrom message body, as far as the proxy reads it:
/// a string, an integer that fits an `i64`, a boolean, or anything else
/// (absent, null, another number, an array, an object).
#[derive(Debug, PartialEq, Eq)]
pub enum JsonField {
    Str(String),
    Int(i64),
    Bool(bool),
    Other,
}

/// The fields of a Maelstrom message body that the proxy reads.
#[derive(Debug, PartialEq, Eq)]
pub struct MaelstromBody {
    pub msg_type: JsonField,
    pub node_id: JsonField,
    pub key: JsonField,
    pub value: JsonField,
    pub from: JsonField,
    pub to: JsonField,
    pub create_if_not_exists: JsonField,
}

/// The kinds of Maelstrom requests the proxy tells apart.
#[derive(Debug, Clone, Copy, PartialEq, Eq, Structural)]
pub enum MessageKind {
    Init,
    Read,
    Write,
    Cas,
    Unknown,
}

/// The kind of a request, from its `type` field.
pub open spec fn kind_of(t: JsonField) -> MessageKind {
    match t {
        JsonField::Str(s) => if s@ == "init"@ {
            MessageKind::Init
        } else if s@ == "read"@ {
            MessageKind::Read
        } else if s@ == "write"@ {
            MessageKind::Write
        } else if s@ == "cas"@ {
            MessageKind::Cas
        } else {
            MessageKind::Unknown
        },
        _ => MessageKind::Unknown,
    }
}

/// An operation on the shim.
#[derive(Debug, Clone, Copy, PartialEq, Eq, Structural)]
pub enum ShimOp {
    Read,
    Write,
    Cas,
}

/// The HTTP method of a call to the shim.
#[derive(Debug, Clone, Copy, PartialEq, Eq, Structural)]
pub enum HttpMethod {
    Get,
    Put,
    Post,
}

/// The JSON body of a call to the shim.
#[derive(Debug, PartialEq, Eq)]
pub enum HttpBody {
    Empty,
    Put(PutBody),
    Cas(CasBody),
}

/// A call to the shim: which operation, how, where, with what.
#[derive(Debug, PartialEq, Eq)]
pub struct HttpCall {
    pub op: ShimOp,
    pub method: HttpMethod,
    pub url: String,
    pub body: HttpBody,
}

/// The errors the proxy answers with.
#[derive(Debug, Clone, Copy, PartialEq, Eq, Structural)]
pub enum ProxyError {
    /// The shim's answer was not the expected JSON.
    BadJson,
    /// The shim's value is not an integer.
    InvalidInteger,
    /// The shim could not be reached in time.
    Timeout,
    /// A compare-and-swap did not find its expected value.
    PreconditionFailed,
}

/// The Maelstrom error code of an error.
pub open spec fn error_code_spec(e: ProxyError) -> u32 {
    match e {
        ProxyError::BadJson => 13,
        ProxyError::InvalidInteger => 13,
        ProxyError::Timeout => 14,
        ProxyError::PreconditionFailed => 22,
    }
}

/// The text that goes with an error.
pub open spec fn error_text_spec(e: ProxyError) -> Seq<char> {
    match e {
        ProxyError::BadJson => "Bad JSON from Shim"@,
        ProxyError::InvalidInteger => "Invalid integer from Shim"@,
        ProxyError::Timeout => "Timeout"@,
        ProxyError::PreconditionFailed => "precondition failed"@,
    }
}

impl ProxyError {
    /// The Maelstrom error code: 13 (crash) for answers the proxy cannot
    /// read, 14 (abort) for an unreachable shim, 22 (precondition failed)
    /// for a failed compare-and-swap.
    pub fn code(&self) -> (c: u32)
        ensures
            c == error_code_spec(*self),
    {
        match self {
            ProxyError::BadJson => 13,
            ProxyError::InvalidInteger => 13,
            ProxyError::Timeout => 14,
            ProxyError::PreconditionFailed => 22,
        }
    }

    /// The error's text.
    pub fn text(&self) -> (t: String)
        ensures
            t@ == error_text_spec(*self),
    {
        match self {
            ProxyError::BadJson => String::from_str("Bad JSON from Shim"),
            ProxyError::InvalidInteger => String::from_str("Invalid integer from Shim"),
            ProxyError::Timeout => String::from_str("Timeout"),
            ProxyError::PreconditionFailed => String::from_str("precondition failed"),
        }
    }
}

/// A reply to a Maelstrom request.
#[derive(Debug, Clone, Copy, PartialEq, Eq, Structural)]
pub enum MaelstromReply {
    InitOk,
    ReadOk(Option<i64>),
    WriteOk,
    CasOk,
    Error(ProxyError),
}

/// What came of a call to the shim: it failed or timed out, or it was
/// answered, with a body that read as a `KvResp` or not.
#[derive(Debug, PartialEq, Eq)]
pub enum ShimOutcome {
    Unreachable,
    Answered(Option<KvResp>),
}

/// What the proxy does with a request.
#[derive(Debug, PartialEq, Eq)]
pub enum ProxyStep {
    Reply(MaelstromReply),
    Call(HttpCall),
    Ignore,
}

/// A call's body with its strings taken as character sequences.
pub ghost enum HttpBodyView {
    Empty,
    Put(Seq<char>),
    Cas { from: Seq<char>, to: Seq<char>, create_if_not_exists: bool },
}

/// A step with its strings taken as character sequences.
pub ghost enum ProxyStepView {
    Reply(MaelstromReply),
    Call { op: ShimOp, method: HttpMethod, url: Seq<char>, body: HttpBodyView },
    Ignore,
}

impl View for ProxyStep {
    type V = ProxyStepView;

    open spec fn view(&self) -> ProxyStepView {
        match self {
            ProxyStep::Reply(r) => ProxyStepView::Reply(*r),
            ProxyStep::Call(c) => ProxyStepView::Call {
                op: c.op,
                method: c.method,
                url: c.url@,
                body: match c.body {
                    HttpBody::Empty => HttpBodyView::Empty,
                    HttpBody::Put(b) => HttpBodyView::Put(b.value@),
                    HttpBody::Cas(b) => HttpBodyView::Cas {
                        from: b.from@,
                        to: b.to@,
                        create_if_not_exists: b.create_if_not_exists,
                    },
                },
            },
            ProxyStep::Ignore => ProxyStepView::Ignore,
        }
    }
}

/// `s` without its `n` characters.
pub open spec fn without_n(s: Seq<char>) -> Seq<char>
    decreases s.len(),
{
    if s.len() == 0 {
        s
    } else if s.last() == 'n' {
        without_n(s.drop_last())
    } else {
        without_n(s.drop_last()).push(s.last())
    }
}

/// The number of a node id such as `n3`: the id without its `n`s, read as
/// a `u16`; 0 where that does not read.
pub open spec fn node_number_spec(node_id: Seq<char>) -> u16 {
    match parse_u16_spec(without_n(node_id)) {
        Some(v) => v,
        None => 0,
    }
}

/// The shim's port for a node number.
pub open spec fn port_of(number: u16) -> int {
    8001 + number
}

/// The node id of an `init`: the `node_id` field, or `n0` where that is no
/// string.
pub open spec fn init_node_id(f: JsonField) -> Seq<char> {
    match f {
        JsonField::Str(s) => s@,
        _ => "n0"@,
    }
}

/// A key field the proxy can use: a string or an integer.
pub open spec fn is_key(f: JsonField) -> bool {
    f is Str || f is Int
}

/// The text of a key: a string as it is, an integer in decimal.
pub open spec fn key_text(f: JsonField) -> Seq<char> {
    match f {
        JsonField::Str(s) => s@,
        JsonField::Int(n) => int_decimal(n as int),
        _ => Seq::empty(),
    }
}

/// The text of an integer field in decimal; empty where it is no integer.
pub open spec fn int_text_or_empty(f: JsonField) -> Seq<char> {
    match f {
        JsonField::Int(n) => int_decimal(n as int),
        _ => Seq::empty(),
    }
}

/// A boolean field, `false` where it is no boolean.
pub open spec fn bool_or_false(f: JsonField) -> bool {
    match f {
        JsonField::Bool(b) => b,
        _ => false,
    }
}

/// The URL of the shim's endpoint `endpoint` for `key`, at `port`.
pub open spec fn shim_url(port: u16, endpoint: Seq<char>, key: Seq<char>) -> Seq<char> {
    "http://127.0.0.1:"@ + nat_decimal(port as nat) + "/"@ + endpoint + "/"@ + key
}

/// The requests on which the proxy proceeds: an `init` whose node number
/// leaves its port within `u16`; reads, writes and compare-and-swaps after
/// an `init`, with a string or integer key, and for a write an integer
/// value. On all others the proxy stops.
pub open spec fn admissible_spec(port: Option<u16>, body: MaelstromBody) -> bool {
    match kind_of(body.msg_type) {
        MessageKind::Init => port_of(node_number_spec(init_node_id(body.node_id))) <= u16::MAX,
        MessageKind::Read => port is Some && is_key(body.key),
        MessageKind::Write => port is Some && is_key(body.key) && body.value is Int,
        MessageKind::Cas => port is Some && is_key(body.key),
        MessageKind::Unknown => true,
    }
}

/// What the proxy does with an admissible request: the port afterwards, and
/// the step. An `init` sets the port from the node number and is answered at
/// once; a read, write or compare-and-swap becomes a call to the shim; any
/// other request is left unanswered.
pub open spec fn step_spec(port: Option<u16>, body: MaelstromBody) -> (Option<u16>, ProxyStepView) {
    match kind_of(body.msg_type) {
        MessageKind::Init => (
            Some(port_of(node_number_spec(init_node_id(body.node_id))) as u16),
            ProxyStepView::Reply(MaelstromReply::InitOk),
        ),
        MessageKind::Read => (
            port,
            ProxyStepView::Call {
                op: ShimOp::Read,
                method: HttpMethod::Get,
                url: shim_url(port->0, "get"@, key_text(body.key)),
                body: HttpBodyView::Empty,
            },
        ),
        MessageKind::Write => (
            port,
            ProxyStepView::Call {
                op: ShimOp::Write,
                method: HttpMethod::Put,
                url: shim_url(port->0, "put"@, key_text(body.key)),
                body: HttpBodyView::Put(int_text_or_empty(body.value)),
            },
        ),
        MessageKind::Cas => (
            port,
            ProxyStepView::Call {
                op: ShimOp::Cas,
                method: HttpMethod::Post,
                url: shim_url(port->0, "cas"@, key_text(body.key)),
                body: HttpBodyView::Cas {
                    from: int_text_or_empty(body.from),
                    to: int_text_or_empty(body.to),
                    create_if_not_exists: bool_or_false(body.create_if_not_exists),
                },
            },
        ),
        MessageKind::Unknown => (port, ProxyStepView::Ignore),
    }
}

/// The reply to a read whose shim answered with `value`: the integer it
/// reads as, `null` where there is none, an error where it is no integer.
pub open spec fn read_value_reply(value: Option<Seq<char>>) -> MaelstromReply {
    match value {
        Some(t) => match parse_i64_spec(t) {
            Some(n) => MaelstromReply::ReadOk(Some(n)),
            None => MaelstromReply::Error(ProxyError::InvalidInteger),
        },
        None => MaelstromReply::ReadOk(None),
    }
}

/// The reply to a request, from the operation and what came of its call.
pub open spec fn reply_spec(op: ShimOp, outcome: ShimOutcome) -> MaelstromReply {
    match outcome {
        ShimOutcome::Unreachable => MaelstromReply::Error(ProxyError::Timeout),
        ShimOutcome::Answered(resp) => match op {
            ShimOp::Write => MaelstromReply::WriteOk,
            ShimOp::Read => match resp {
                Some(kv) => read_value_reply(
                    match kv.value {
                        Some(s) => Some(s@),
                        None => None,
                    },
                ),
                None => MaelstromReply::Error(ProxyError::BadJson),
            },
            ShimOp::Cas => match resp {
                Some(kv) => if kv.swapped == Some(true) {
                    MaelstromReply::CasOk
                } else {
                    MaelstromReply::Error(ProxyError::PreconditionFailed)
                },
                None => MaelstromReply::Error(ProxyError::BadJson),
            },
        },
    }
}

/// Whether a string equals a literal.
fn str_is(s: &String, lit: &str) -> (b: bool)
    ensures
        b == (s@ == lit@),
{
    let l = String::from_str(lit);
    s.eq(&l)
}

/// The kind of a request, from its `type` field.
pub fn classify(t: &JsonField) -> (k: MessageKind)
    ensures
        k == kind_of(*t),
{
    match t {
        JsonField::Str(s) => {
            if str_is(s, "init") {
                MessageKind::Init
            } else if str_is(s, "read") {
                MessageKind::Read
            } else if str_is(s, "write") {
                MessageKind::Write
            } else if str_is(s, "cas") {
                MessageKind::Cas
            } else {
                MessageKind::Unknown
            }
        },
        _ => MessageKind::Unknown,
    }
}

/// `s` without its `n` characters, as `s.replace('n', "")` gives it.
pub fn remove_n(s: &str) -> (r: String)
    ensures
        r@ == without_n(s@),
{
    let len = s.unicode_len();
    let mut r = String::new();
    let mut i: usize = 0;
    while i < len
        invariant
            i <= len,
            len == s@.len(),
            r@ == without_n(s@.take(i as int)),
        decreases len - i,
    {
        let c = s.get_char(i);
        let ghost next = s@.take(i + 1);
        assert(next.drop_last() =~= s@.take(i as int));
        assert(next.last() == c);
        if c != 'n' {
            push_char(&mut r, c);
        }
        i = i + 1;
    }
    assert(s@.take(len as int) =~= s@);
    r
}

/// The number of a node id such as `n3`.
pub fn node_number(node_id: &str) -> (n: u16)
    ensures
        n == node_number_spec(node_id@),
{
    let digits = remove_n(node_id);
    match parse_u16(digits.as_str()) {
        Some(v) => v,
        None => 0,
    }
}

/// The text of a key field: a string as it is, an integer in decimal.
pub fn parse_key(v: &JsonField) -> (s: String)
    requires
        is_key(*v),
    ensures
        s@ == key_text(*v),
{
    match v {
        JsonField::Str(s) => s.clone(),
        JsonField::Int(n) => i64_to_decimal(*n),
        _ => String::new(),
    }
}

fn int_text_or_default(f: &JsonField) -> (s: String)
    ensures
        s@ == int_text_or_empty(*f),
{
    match f {
        JsonField::Int(n) => i64_to_decimal(*n),
        _ => String::new(),
    }
}

fn bool_field(f: &JsonField) -> (b: bool)
    ensures
        b == bool_or_false(*f),
{
    match f {
        JsonField::Bool(b) => *b,
        _ => false,
    }
}

/// The URL of the shim's endpoint for `key` at `port`.
fn build_url(port: u16, endpoint: &str, key: &str) -> (u: String)
    ensures
        u@ == shim_url(port, endpoint@, key@),
{
    let mut u = String::from_str("http://127.0.0.1:");
    push_u64_decimal(&mut u, port as u64);
    push_char(&mut u, '/');
    u.append(endpoint);
    push_char(&mut u, '/');
    u.append(key);
    assert(u@ =~= shim_url(port, endpoint@, key@)) by {
        reveal_strlit("/");
    }
    u
}

/// The reply to a request, from the operation and what came of its call to
/// the shim: an unreachable shim is a timeout; a write is acknowledged once
/// the shim answered; a read answers the integer the shim read; a
/// compare-and-swap succeeds when the shim says it swapped.
pub fn shim_reply(op: ShimOp, outcome: ShimOutcome) -> (r: MaelstromReply)
    ensures
        r == reply_spec(op, outcome),
{
    match outcome {
        ShimOutcome::Unreachable => MaelstromReply::Error(ProxyError::Timeout),
        ShimOutcome::Answered(resp) => match op {
            ShimOp::Write => MaelstromReply::WriteOk,
            ShimOp::Read => match resp {
                Some(kv) => match kv.value {
                    Some(value_str) => match parse_i64(value_str.as_str()) {
                        Some(parsed) => MaelstromReply::ReadOk(Some(parsed)),
                        None => MaelstromReply::Error(ProxyError::InvalidInteger),
                    },
                    None => MaelstromReply::ReadOk(None),
                },
                None => MaelstromReply::Error(ProxyError::BadJson),
            },
            ShimOp::Cas => match resp {
                Some(kv) => {
                    let swapped = match kv.swapped {
                        Some(b) => b,
                        None => false,
                    };
                    if swapped {
                        MaelstromReply::CasOk
                    } else {
                        MaelstromReply::Error(ProxyError::PreconditionFailed)
                    }
                },
                None => MaelstromReply::Error(ProxyError::BadJson),
            },
        },
    }
}

/// The proxy's state: the port of the shim it forwards to, once known.
pub struct ProxyHandler {
    client_port: Option<u16>,
}

impl View for ProxyHandler {
    type V = Option<u16>;

    closed spec fn view(&self) -> Option<u16> {
        self.client_port
    }
}

impl ProxyHandler {
    /// A proxy that does not know its port yet.
    pub fn new() -> (p: Self)
        ensures
            p@ is None,
    {
        ProxyHandler { client_port: None }
    }

    /// The shim's port, once an `init` has set it.
    pub fn port(&self) -> (port: Option<u16>)
        ensures
            port == self@,
    {
        self.client_port
    }

    /// The shim's port.
    pub fn get_port(&self) -> (port: u16)
        requires
            self@ is Some,
        ensures
            Some(port) == self@,
    {
        match self.client_port {
            Some(p) => p,
            None => 0,
        }
    }

    /// Sets the shim's port from the node id: 8001 plus the node number.
    pub fn set_port_from_id(&mut self, node_id: &str)
        requires
            port_of(node_number_spec(node_id@)) <= u16::MAX,
        ensures
            final(self)@ == Some(port_of(node_number_spec(node_id@)) as u16),
    {
        let id_num = node_number(node_id);
        self.client_port = Some(8001 + id_num);
    }

    /// Whether the proxy can take the request without stopping.
    pub fn admissible(&self, body: &MaelstromBody) -> (b: bool)
        ensures
            b == admissible_spec(self@, *body),
    {
        let is_key_field = match &body.key {
            JsonField::Str(_) => true,
            JsonField::Int(_) => true,
            _ => false,
        };
        match classify(&body.msg_type) {
            MessageKind::Init => {
                let n = match &body.node_id {
                    JsonField::Str(s) => node_number(s.as_str()),
                    _ => node_number("n0"),
                };
                n <= 57534
            },
            MessageKind::Read => self.client_port.is_some() && is_key_field,
            MessageKind::Write => self.client_port.is_some() && is_key_field && (match &body.value {
                JsonField::Int(_) => true,
                _ => false,
            }),
            MessageKind::Cas => self.client_port.is_some() && is_key_field,
            MessageKind::Unknown => true,
        }
    }

    /// Takes a Maelstrom request: an `init` sets the port and is answered
    /// `init_ok`; a `read`, `write` or `cas` becomes the call to the shim
    /// that serves it; anything else is left unanswered.
    pub fn process(&mut self, body: &MaelstromBody) -> (step: ProxyStep)
        requires
            admissible_spec(old(self)@, *body),
        ensures
            (final(self)@, step@) == step_spec(old(self)@, *body),
    {
        match classify(&body.msg_type) {
            MessageKind::Init => {
                match &body.node_id {
                    JsonField::Str(s) => self.set_port_from_id(s.as_str()),
                    _ => self.set_port_from_id("n0"),
                }
                ProxyStep::Reply(MaelstromReply::InitOk)
            },
            MessageKind::Read => {
                let port = self.get_port();
                let key = parse_key(&body.key);
                let url = build_url(port, "get", key.as_str());
                ProxyStep::Call(HttpCall { op: ShimOp::Read, method: HttpMethod::Get, url, body: HttpBody::Empty })
            },
            MessageKind::Write => {
                let port = self.get_port();
                let key = parse_key(&body.key);
                let val_str = int_text_or_default(&body.value);
                let url = build_url(port, "put", key.as_str());
                ProxyStep::Call(
                    HttpCall {
                        op: ShimOp::Write,
                        method: HttpMethod::Put,
                        url,
                        body: HttpBody::Put(PutBody { value: val_str }),
                    },
                )
            },
            MessageKind::Cas => {
                let port = self.get_port();
                let key = parse_key(&body.key);
                let from = int_text_or_default(&body.from);
                let to = int_text_or_default(&body.to);
                let create = bool_field(&body.create_if_not_exists);
                let url = build_url(port, "cas", key.as_str());
                ProxyStep::Call(
                    HttpCall {
                        op: ShimOp::Cas,
                        method: HttpMethod::Post,
                        url,
                        body: HttpBody::Cas(CasBody { from, to, create_if_not_exists: create }),
                    },
                )
            },
            MessageKind::Unknown => ProxyStep::Ignore,
        }
    }
}

/// An integer that a write sends to the shim, read back through the shim,
/// is answered as that same integer.
pub proof fn law_write_then_read_same_value(v: i64)
    ensures
        read_value_reply(Some(int_decimal(v as int))) == MaelstromReply::ReadOk(Some(v)),
{
    crate::decimal::law_i64_decimal_round_trip(v);
}

/// After an `init`, every read, write and compare-and-swap goes to the port
/// 8001 plus the node number.
pub proof fn law_init_routes_requests(port: Option<u16>, init: MaelstromBody, req: MaelstromBody)
    requires
        kind_of(init.msg_type) == MessageKind::Init,
        admissible_spec(port, init),
        kind_of(req.msg_type) != MessageKind::Init,
        kind_of(req.msg_type) != MessageKind::Unknown,
    ensures
        ({
            let after = step_spec(port, init).0;
            let n = port_of(node_number_spec(init_node_id(init.node_id))) as u16;
            &&& after == Some(n)
            &&& admissible_spec(after, req) == (is_key(req.key) && (kind_of(req.msg_type) == MessageKind::Write ==> req.value is Int))
            &&& step_spec(after, req).1 matches ProxyStepView::Call { url, .. }
                && url.subrange(0, 17) == "http://127.0.0.1:"@
                && url.subrange(17, 17 + nat_decimal(n as nat).len() as int) == nat_decimal(n as nat)
        }),
{
    let n = port_of(node_number_spec(init_node_id(init.node_id))) as u16;
    reveal_strlit("http://127.0.0.1:");
    let head = "http://127.0.0.1:"@;
    let k = key_text(req.key);
    let e = match kind_of(req.msg_type) {
        MessageKind::Read => "get"@,
        MessageKind::Write => "put"@,
        _ => "cas"@,
    };
    let url = shim_url(n, e, k);
    assert(url.subrange(0, 17) =~= head);
    assert(url.subrange(17, 17 + nat_decimal(n as nat).len() as int) =~= nat_decimal(n as nat));
}

/// Only reads, writes and compare-and-swaps reach the shim, and each of
/// them does; an `init` is answered by the proxy itself.
pub proof fn law_calls_exactly_for_operations(port: Option<u16>, body: MaelstromBody)
    ensures
        (step_spec(port, body).1 is Call) <==> (kind_of(body.msg_type) == MessageKind::Read
            || kind_of(body.msg_type) == MessageKind::Write || kind_of(body.msg_type)
            == MessageKind::Cas),
        kind_of(body.msg_type) == MessageKind::Init ==> step_spec(port, body).1
            == ProxyStepView::Reply(MaelstromReply::InitOk),
{
}

/// An unreachable shim is answered as a timeout, whatever the operation, and
/// no success is ever answered without the shim's answer.
pub proof fn law_unreachable_shim_times_out(op: ShimOp)
    ensures
        reply_spec(op, ShimOutcome::Unreachable) == MaelstromReply::Error(ProxyError::Timeout),
        error_code_spec(ProxyError::Timeout) == 14,
{
}

/// The request kinds as the proxy reads them from the literal type names.
proof fn lemma_type_names()
    ensures
        "init"@ != "read"@,
        "init"@ != "write"@,
        "init"@ != "cas"@,
        "read"@ != "write"@,
        "read"@ != "cas"@,
        "write"@ != "cas"@,
{
    reveal_strlit("init");
    reveal_strlit("read");
    reveal_strlit("write");
    reveal_strlit("cas");
    assert("init"@[0] != "read"@[0]);
    assert("init"@[0] != "write"@[0]);
    assert("init"@.len() != "cas"@.len());
    assert("read"@[0] != "write"@[0]);
    assert("read"@.len() != "cas"@.len());
    assert("write"@.len() != "cas"@.len());
}

/// The URL of an endpoint, written with the endpoint between its slashes.
proof fn lemma_shim_url(port: u16, endpoint: Seq<char>, path: Seq<char>, key: Seq<char>)
    requires
        path == "/"@ + endpoint + "/"@,
    ensures
        shim_url(port, endpoint, key) == "http://127.0.0.1:"@ + nat_decimal(port as nat) + path
            + key,
{
    let head = "http://127.0.0.1:"@ + nat_decimal(port as nat);
    assert(shim_url(port, endpoint, key) =~= head + path + key);
}

/// After an `init`, a `read` becomes a GET of
/// `http://127.0.0.1:<port>/get/<key>` with no body, where `<key>` is a
/// string key as it is and an integer key in decimal; the port stays.
pub proof fn law_read_becomes_get(port: u16, body: MaelstromBody, key: Seq<char>)
    requires
        body.msg_type matches JsonField::Str(t) && t@ == "read"@,
        (body.key matches JsonField::Str(s) && s@ == key) || (body.key matches JsonField::Int(n)
            && key == int_decimal(n as int)),
    ensures
        (step_spec(Some(port), body) == (
            Some(port),
            ProxyStepView::Call {
                op: ShimOp::Read,
                method: HttpMethod::Get,
                url: "http://127.0.0.1:"@ + nat_decimal(port as nat) + "/get/"@ + key,
                body: HttpBodyView::Empty,
            },
        )),
{
    lemma_type_names();
    reveal_strlit("/");
    reveal_strlit("get");
    reveal_strlit("/get/");
    assert("/get/"@ =~= "/"@ + "get"@ + "/"@);
    lemma_shim_url(port, "get"@, "/get/"@, key);
}

/// After an `init`, a `write` of the integer `v` becomes a PUT of
/// `http://127.0.0.1:<port>/put/<key>` whose body holds `v` in decimal,
/// where `<key>` is a string key as it is and an integer key in decimal;
/// the port stays.
pub proof fn law_write_becomes_put(port: u16, body: MaelstromBody, key: Seq<char>, v: i64)
    requires
        body.msg_type matches JsonField::Str(t) && t@ == "write"@,
        (body.key matches JsonField::Str(s) && s@ == key) || (body.key matches JsonField::Int(n)
            && key == int_decimal(n as int)),
        body.value == JsonField::Int(v),
    ensures
        (step_spec(Some(port), body) == (
            Some(port),
            ProxyStepView::Call {
                op: ShimOp::Write,
                method: HttpMethod::Put,
                url: "http://127.0.0.1:"@ + nat_decimal(port as nat) + "/put/"@ + key,
                body: HttpBodyView::Put(int_decimal(v as int)),
            },
        )),
{
    lemma_type_names();
    reveal_strlit("/");
    reveal_strlit("put");
    reveal_strlit("/put/");
    assert("/put/"@ =~= "/"@ + "put"@ + "/"@);
    lemma_shim_url(port, "put"@, "/put/"@, key);
}

/// After an `init`, a `cas` becomes a POST of
/// `http://127.0.0.1:<port>/cas/<key>`, where `<key>` is a string key as it
/// is and an integer key in decimal. Its body holds `from` and `to` in
/// decimal, each empty where it is no integer, and `create_if_not_exists`,
/// false where it is no boolean; the port stays.
pub proof fn law_cas_becomes_post(
    port: u16,
    body: MaelstromBody,
    key: Seq<char>,
    from: Seq<char>,
    to: Seq<char>,
    create: bool,
)
    requires
        body.msg_type matches JsonField::Str(t) && t@ == "cas"@,
        (body.key matches JsonField::Str(s) && s@ == key) || (body.key matches JsonField::Int(n)
            && key == int_decimal(n as int)),
        (body.from matches JsonField::Int(f) && from == int_decimal(f as int)) || (!(body.from is Int)
            && from == Seq::<char>::empty()),
        (body.to matches JsonField::Int(t) && to == int_decimal(t as int)) || (!(body.to is Int) && to
            == Seq::<char>::empty()),
        (body.create_if_not_exists matches JsonField::Bool(b) && create == b) || (
        !(body.create_if_not_exists is Bool) && !create),
    ensures
        (step_spec(Some(port), body) == (
            Some(port),
            ProxyStepView::Call {
                op: ShimOp::Cas,
                method: HttpMethod::Post,
                url: "http://127.0.0.1:"@ + nat_decimal(port as nat) + "/cas/"@ + key,
                body: HttpBodyView::Cas { from, to, create_if_not_exists: create },
            },
        )),
{
    lemma_type_names();
    reveal_strlit("/");
    reveal_strlit("cas");
    reveal_strlit("/cas/");
    assert("/cas/"@ =~= "/"@ + "cas"@ + "/"@);
    lemma_shim_url(port, "cas"@, "/cas/"@, key);
}

/// The call a request becomes serves the request's kind: a `read` reads, a
/// `write` writes and a `cas` compares and swaps, whatever else the request
/// holds.
pub proof fn law_call_serves_request_kind(port: Option<u16>, body: MaelstromBody)
    ensures
        (body.msg_type matches JsonField::Str(t) && t@ == "read"@) ==> (step_spec(port, body).1 matches ProxyStepView::Call { op, .. } && op == ShimOp::Read),
        (body.msg_type matches JsonField::Str(t) && t@ == "write"@) ==> (step_spec(port, body).1 matches ProxyStepView::Call { op, .. } && op == ShimOp::Write),
        (body.msg_type matches JsonField::Str(t) && t@ == "cas"@) ==> (step_spec(port, body).1 matches ProxyStepView::Call { op, .. } && op == ShimOp::Cas),
{
    lemma_type_names();
}

/// What the shim answers decides the reply. A read answers the integer
/// whose decimal text the shim gave back, and `null` where it gave none; a
/// write is acknowledged once answered; a compare-and-swap succeeds exactly
/// when the shim says it swapped and otherwise fails its precondition; an
/// answer that does not read is a crash, and no answer a timeout.
pub proof fn law_shim_answer_decides_reply(kv: KvResp, v: i64)
    ensures
        (kv.value matches Some(s) && s@ == int_decimal(v as int)) ==> reply_spec(
            ShimOp::Read,
            ShimOutcome::Answered(Some(kv)),
        ) == MaelstromReply::ReadOk(Some(v)),
        kv.value is None ==> reply_spec(ShimOp::Read, ShimOutcome::Answered(Some(kv)))
            == MaelstromReply::ReadOk(None),
        reply_spec(ShimOp::Write, ShimOutcome::Answered(Some(kv))) == MaelstromReply::WriteOk,
        reply_spec(ShimOp::Write, ShimOutcome::Answered(None)) == MaelstromReply::WriteOk,
        kv.swapped == Some(true) ==> reply_spec(ShimOp::Cas, ShimOutcome::Answered(Some(kv)))
            == MaelstromReply::CasOk,
        kv.swapped != Some(true) ==> reply_spec(ShimOp::Cas, ShimOutcome::Answered(Some(kv)))
            == MaelstromReply::Error(ProxyError::PreconditionFailed),
        reply_spec(ShimOp::Read, ShimOutcome::Answered(None)) == MaelstromReply::Error(
            ProxyError::BadJson,
        ),
        reply_spec(ShimOp::Cas, ShimOutcome::Answered(None)) == MaelstromReply::Error(
            ProxyError::BadJson,
        ),
        error_code_spec(ProxyError::PreconditionFailed) == 22,
        error_code_spec(ProxyError::BadJson) == 13,
        error_code_spec(ProxyError::InvalidInteger) == 13,
        error_code_spec(ProxyError::Timeout) == 14,
{
    crate::decimal::law_i64_decimal_round_trip(v);
}

/// A digit string loses no character to `without_n`.
proof fn lemma_without_n_keeps_digits(p: Seq<char>, d: Seq<char>)
    requires
        crate::decimal::all_digits(d),
    ensures
        without_n(p + d) == without_n(p) + d,
    decreases d.len(),
{
    if d.len() == 0 {
        assert(p + d =~= p);
        assert(without_n(p) + d =~= without_n(p));
    } else {
        let q = d.drop_last();
        assert(crate::decimal::is_digit(d[d.len() - 1]));
        lemma_without_n_keeps_digits(p, q);
        assert((p + d).drop_last() =~= p + q);
        assert((p + d).last() == d.last());
        assert((without_n(p) + q).push(d.last()) =~= without_n(p) + d);
    }
}

/// The number of the node id `n<k>` is `k`.
proof fn lemma_node_number(k: u16)
    ensures
        node_number_spec("n"@ + nat_decimal(k as nat)) == k,
{
    reveal_strlit("n");
    let n = "n"@;
    let none = Seq::<char>::empty();
    assert(n.drop_last() =~= none);
    assert(n.last() == 'n');
    assert(without_n(none) == none);
    assert(without_n(n) == without_n(n.drop_last()));
    crate::decimal::lemma_nat_decimal(k as nat);
    lemma_without_n_keeps_digits(n, nat_decimal(k as nat));
    assert(Seq::<char>::empty() + nat_decimal(k as nat) =~= nat_decimal(k as nat));
    crate::decimal::law_u16_decimal_round_trip(k);
}

/// An `init` of node `n<k>` sends every later call to port 8001 + `k`, and
/// an `init` without a node id to port 8001; either way it is answered
/// `init_ok` at once.
pub proof fn law_init_sets_port(port: Option<u16>, body: MaelstromBody, k: u16)
    requires
        body.msg_type matches JsonField::Str(t) && t@ == "init"@,
        (body.node_id matches JsonField::Str(s) && s@ == "n"@ + nat_decimal(k as nat)) || (
        !(body.node_id is Str) && k == 0),
        8001 + k <= 65535,
    ensures
        admissible_spec(port, body),
        (step_spec(port, body) == (
            Some((8001 + k) as u16),
            ProxyStepView::Reply(MaelstromReply::InitOk),
        )),
{
    lemma_type_names();
    lemma_node_number(k);
    if !(body.node_id is Str) {
        reveal_strlit("n0");
        reveal_strlit("n");
        assert(nat_decimal(0) =~= seq!['0']);
        assert("n0"@ =~= "n"@ + nat_decimal(0));
    }
}

/// A request of any other type is left unanswered and changes nothing.
pub proof fn law_other_requests_ignored(port: Option<u16>, body: MaelstromBody)
    requires
        !(body.msg_type matches JsonField::Str(t) && (t@ == "init"@ || t@ == "read"@ || t@
            == "write"@ || t@ == "cas"@)),
    ensures
        admissible_spec(port, body),
        step_spec(port, body) == (port, ProxyStepView::Ignore),
{
}

} // verus!
