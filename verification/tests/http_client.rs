use omnikv::http_client::{
    answer_for_reply, cas_command, dispatch_result, get_command, put_command, CasBody, KvResp, PutBody,
};
use omnikv::kv::{KVCommand, ServerMessage};

#[test]
fn endpoints_build_commands() {
    assert_eq!(get_command("k".into()), KVCommand::Get("k".into()));
    assert_eq!(put_command("k".into(), PutBody { value: "v".into() }), KVCommand::Put("k".into(), "v".into()));
    let body = CasBody { from: "1".into(), to: "2".into(), create_if_not_exists: true };
    assert_eq!(
        cas_command("k".into(), body),
        KVCommand::Cas { key: "k".into(), from: "1".into(), to: "2".into(), create_if_not_exists: true }
    );
}

#[test]
fn dispatch_statuses() {
    let (st, r) = dispatch_result(false, None);
    assert_eq!(st, 503);
    assert_eq!(r, KvResp { ok: false, value: None, swapped: None, error: Some("Client loop not running".into()) });
    let (st, r) = dispatch_result(true, None);
    assert_eq!(st, 500);
    assert_eq!(r, KvResp { ok: false, value: None, swapped: None, error: Some("Client loop dropped response".into()) });
    let ans = KvResp { ok: true, value: Some("x".into()), swapped: None, error: None };
    let (st, r) = dispatch_result(true, Some(ans));
    assert_eq!(st, 200);
    assert_eq!(r.value, Some("x".into()));
}

#[test]
fn answers_for_replies() {
    assert_eq!(answer_for_reply(ServerMessage::Write(3)), KvResp { ok: true, value: None, swapped: None, error: None });
    assert_eq!(
        answer_for_reply(ServerMessage::Read(3, Some("7".into()))),
        KvResp { ok: true, value: Some("7".into()), swapped: None, error: None }
    );
}
