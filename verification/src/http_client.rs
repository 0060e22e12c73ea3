//! The HTTP face of a client: the requests it takes, the commands they
//! become, and the answers it gives back.
use vstd::prelude::*;
use vstd::string::*;

use crate::kv::{KVCommand, KVCommandView, ServerMessage};

verus! {

/// The answer to an HTTP request on the store.
#[derive(Debug, PartialEq, Eq)]
pub struct KvResp {
    pub ok: bool,
    pub value: Option<String>,
    pub swapped: Option<bool>,
    pub error: Option<String>,
}

/// The body of a put request.
#[derive(Debug, PartialEq, Eq)]
pub struct PutBody {
    pub value: String,
}

/// The body of a compare-and-swap request.
#[derive(Debug, PartialEq, Eq)]
pub struct CasBody {
    pub from: String,
    pub to: String,
    pub create_if_not_exists: bool,
}

/// The HTTP status `OK`.
pub const STATUS_OK: u16 = 200;

/// The HTTP status `INTERNAL_SERVER_ERROR`.
pub const STATUS_INTERNAL_SERVER_ERROR: u16 = 500;

/// The HTTP status `SERVICE_UNAVAILABLE`.
pub const STATUS_SERVICE_UNAVAILABLE: u16 = 503;

/// An optional string taken as an optional character sequence.
pub open spec fn opt_view(s: Option<String>) -> Option<Seq<char>> {
    match s {
        Some(v) => Some(v@),
        None => None,
    }
}

/// `r` is a failure answer carrying the message `text`.
pub open spec fn is_failure(r: KvResp, text: Seq<char>) -> bool {
    &&& !r.ok
    &&& r.value is None
    &&& r.swapped is None
    &&& opt_view(r.error) == Some(text)
}

/// `r` is a success answer carrying `value` and nothing else.
pub open spec fn is_success(r: KvResp, value: Option<Seq<char>>) -> bool {
    &&& r.ok
    &&& opt_view(r.value) == value
    &&& r.swapped is None
    &&& r.error is None
}

/// The command of a request on `/get/{key}`.
pub fn get_command(key: String) -> (c: KVCommand)
    ensures
        c@ == KVCommandView::Get(key@),
{
    KVCommand::Get(key)
}

/// The command of a request on `/put/{key}`.
pub fn put_command(key: String, body: PutBody) -> (c: KVCommand)
    ensures
        c@ == KVCommandView::Put(key@, body.value@),
{
    KVCommand::Put(key, body.value)
}

/// The command of a request on `/cas/{key}`.
pub fn cas_command(key: String, body: CasBody) -> (c: KVCommand)
    ensures
        c@ == (KVCommandView::Cas {
            key: key@,
            from: body.from@,
            to: body.to@,
            create_if_not_exists: body.create_if_not_exists,
        }),
{
    KVCommand::Cas { key, from: body.from, to: body.to, create_if_not_exists: body.create_if_not_exists }
}

/// The answer when the client loop did not take the request.
pub fn loop_not_running() -> (r: KvResp)
    ensures
        is_failure(r, "Client loop not running"@),
{
    KvResp {
        ok: false,
        value: None,
        swapped: None,
        error: Some(String::from_str("Client loop not running")),
    }
}

/// The answer when the client loop took the request and never answered.
pub fn loop_dropped_response() -> (r: KvResp)
    ensures
        is_failure(r, "Client loop dropped response"@),
{
    KvResp {
        ok: false,
        value: None,
        swapped: None,
        error: Some(String::from_str("Client loop dropped response")),
    }
}

/// The status and answer of an HTTP request, from whether the client loop
/// took it (`delivered`) and what the loop answered, if it did.
pub fn dispatch_result(delivered: bool, answer: Option<KvResp>) -> (r: (u16, KvResp))
    ensures
        !delivered ==> r.0 == STATUS_SERVICE_UNAVAILABLE && is_failure(
            r.1,
            "Client loop not running"@,
        ),
        delivered && answer is Some ==> r.0 == STATUS_OK && r.1 == answer->0,
        delivered && answer is None ==> r.0 == STATUS_INTERNAL_SERVER_ERROR && is_failure(
            r.1,
            "Client loop dropped response"@,
        ),
{
    if !delivered {
        return (STATUS_SERVICE_UNAVAILABLE, loop_not_running());
    }
    match answer {
        Some(resp) => (STATUS_OK, resp),
        None => (STATUS_INTERNAL_SERVER_ERROR, loop_dropped_response()),
    }
}

/// The answer that a server's reply gives to the HTTP request it belongs to:
/// a write is acknowledged, a read carries the value read.
pub fn answer_for_reply(msg: ServerMessage) -> (r: KvResp)
    requires
        !(msg is StartSignal),
    ensures
        msg is Write ==> is_success(r, None),
        msg matches ServerMessage::Read(_, v) ==> is_success(r, opt_view(v)),
{
    let value = match msg {
        ServerMessage::Read(_, v) => v,
        _ => None,
    };
    KvResp { ok: true, value, swapped: None, error: None }
}

} // verus!
