use omnikv::http_client::{CasBody, KvResp, PutBody};
use omnikv::maelstrom_proxy::{
    classify, node_number, parse_key, remove_n, shim_reply, HttpBody, HttpMethod, JsonField, MaelstromBody,
    MaelstromReply, MessageKind, ProxyError, ProxyHandler, ProxyStep, ShimOp, ShimOutcome,
};

fn body(t: &str) -> MaelstromBody {
    MaelstromBody {
        msg_type: JsonField::Str(t.into()),
        node_id: JsonField::Other,
        key: JsonField::Other,
        value: JsonField::Other,
        from: JsonField::Other,
        to: JsonField::Other,
        create_if_not_exists: JsonField::Other,
    }
}

fn init(node: &str) -> ProxyHandler {
    let mut p = ProxyHandler::new();
    let mut b = body("init");
    b.node_id = JsonField::Str(node.into());
    assert!(p.admissible(&b));
    assert_eq!(p.process(&b), ProxyStep::Reply(MaelstromReply::InitOk));
    p
}

#[test]
fn node_numbers_and_ports() {
    assert_eq!(node_number("n3"), 3);
    assert_eq!(node_number("n12"), 12);
    assert_eq!(node_number("x"), 0);
    assert_eq!(node_number("nnn7n"), 7);
    assert_eq!(remove_n("banana"), "baaa");
    assert_eq!(init("n3").get_port(), 8004);
    assert_eq!(init("n0").get_port(), 8001);
}

#[test]
fn init_without_string_node_id_uses_n0() {
    let mut p = ProxyHandler::new();
    let b = body("init");
    assert_eq!(p.process(&b), ProxyStep::Reply(MaelstromReply::InitOk));
    assert_eq!(p.get_port(), 8001);
}

#[test]
fn init_with_too_large_node_number_is_refused() {
    let p = ProxyHandler::new();
    let mut b = body("init");
    b.node_id = JsonField::Str("n60000".into());
    assert!(!p.admissible(&b));
}

#[test]
fn classify_types() {
    assert_eq!(classify(&JsonField::Str("read".into())), MessageKind::Read);
    assert_eq!(classify(&JsonField::Str("cas".into())), MessageKind::Cas);
    assert_eq!(classify(&JsonField::Str("echo".into())), MessageKind::Unknown);
    assert_eq!(classify(&JsonField::Int(1)), MessageKind::Unknown);
}

#[test]
fn keys_as_text() {
    assert_eq!(parse_key(&JsonField::Str("abc".into())), "abc");
    assert_eq!(parse_key(&JsonField::Int(-12)), "-12");
}

#[test]
fn read_becomes_get_call() {
    let mut p = init("n2");
    let mut b = body("read");
    b.key = JsonField::Int(5);
    assert!(p.admissible(&b));
    match p.process(&b) {
        ProxyStep::Call(c) => {
            assert_eq!(c.op, ShimOp::Read);
            assert_eq!(c.method, HttpMethod::Get);
            assert_eq!(c.url, "http://127.0.0.1:8003/get/5");
            assert_eq!(c.body, HttpBody::Empty);
        }
        other => panic!("unexpected {:?}", other),
    }
}

#[test]
fn write_becomes_put_call() {
    let mut p = init("n1");
    let mut b = body("write");
    b.key = JsonField::Str("x".into());
    b.value = JsonField::Int(-3);
    assert!(p.admissible(&b));
    match p.process(&b) {
        ProxyStep::Call(c) => {
            assert_eq!(c.method, HttpMethod::Put);
            assert_eq!(c.url, "http://127.0.0.1:8002/put/x");
            assert_eq!(c.body, HttpBody::Put(PutBody { value: "-3".into() }));
        }
        other => panic!("unexpected {:?}", other),
    }
}

#[test]
fn cas_becomes_post_call() {
    let mut p = init("n1");
    let mut b = body("cas");
    b.key = JsonField::Int(1);
    b.from = JsonField::Int(2);
    b.to = JsonField::Str("no".into());
    b.create_if_not_exists = JsonField::Bool(true);
    match p.process(&b) {
        ProxyStep::Call(c) => {
            assert_eq!(c.method, HttpMethod::Post);
            assert_eq!(c.url, "http://127.0.0.1:8002/cas/1");
            assert_eq!(
                c.body,
                HttpBody::Cas(CasBody { from: "2".into(), to: "".into(), create_if_not_exists: true })
            );
        }
        other => panic!("unexpected {:?}", other),
    }
}

#[test]
fn requests_before_init_or_with_bad_fields_are_refused() {
    let p = ProxyHandler::new();
    let mut b = body("read");
    b.key = JsonField::Int(1);
    assert!(!p.admissible(&b));
    let p = init("n1");
    let mut w = body("write");
    w.key = JsonField::Int(1);
    w.value = JsonField::Str("1".into());
    assert!(!p.admissible(&w));
    let mut r = body("read");
    r.key = JsonField::Bool(true);
    assert!(!p.admissible(&r));
}

#[test]
fn unknown_type_is_ignored() {
    let mut p = ProxyHandler::new();
    assert_eq!(p.process(&body("echo")), ProxyStep::Ignore);
}

fn kv(value: Option<&str>, swapped: Option<bool>) -> KvResp {
    KvResp { ok: true, value: value.map(|s| s.to_string()), swapped, error: None }
}

#[test]
fn replies_from_shim_outcomes() {
    assert_eq!(shim_reply(ShimOp::Read, ShimOutcome::Unreachable), MaelstromReply::Error(ProxyError::Timeout));
    assert_eq!(shim_reply(ShimOp::Read, ShimOutcome::Answered(None)), MaelstromReply::Error(ProxyError::BadJson));
    assert_eq!(shim_reply(ShimOp::Read, ShimOutcome::Answered(Some(kv(Some("42"), None)))), MaelstromReply::ReadOk(Some(42)));
    assert_eq!(shim_reply(ShimOp::Read, ShimOutcome::Answered(Some(kv(None, None)))), MaelstromReply::ReadOk(None));
    assert_eq!(
        shim_reply(ShimOp::Read, ShimOutcome::Answered(Some(kv(Some("4x"), None)))),
        MaelstromReply::Error(ProxyError::InvalidInteger)
    );
    assert_eq!(shim_reply(ShimOp::Write, ShimOutcome::Answered(None)), MaelstromReply::WriteOk);
    assert_eq!(shim_reply(ShimOp::Write, ShimOutcome::Unreachable), MaelstromReply::Error(ProxyError::Timeout));
    assert_eq!(shim_reply(ShimOp::Cas, ShimOutcome::Answered(Some(kv(None, Some(true))))), MaelstromReply::CasOk);
    assert_eq!(
        shim_reply(ShimOp::Cas, ShimOutcome::Answered(Some(kv(None, Some(false))))),
        MaelstromReply::Error(ProxyError::PreconditionFailed)
    );
    assert_eq!(
        shim_reply(ShimOp::Cas, ShimOutcome::Answered(Some(kv(None, None)))),
        MaelstromReply::Error(ProxyError::PreconditionFailed)
    );
    assert_eq!(shim_reply(ShimOp::Cas, ShimOutcome::Answered(None)), MaelstromReply::Error(ProxyError::BadJson));
}

#[test]
fn error_codes_and_texts() {
    assert_eq!(ProxyError::BadJson.code(), 13);
    assert_eq!(ProxyError::InvalidInteger.code(), 13);
    assert_eq!(ProxyError::Timeout.code(), 14);
    assert_eq!(ProxyError::PreconditionFailed.code(), 22);
    assert_eq!(ProxyError::BadJson.text(), "Bad JSON from Shim");
    assert_eq!(ProxyError::InvalidInteger.text(), "Invalid integer from Shim");
    assert_eq!(ProxyError::Timeout.text(), "Timeout");
    assert_eq!(ProxyError::PreconditionFailed.text(), "precondition failed");
}

#[test]
fn written_integer_reads_back() {
    let mut p = init("n1");
    for v in [0i64, 17, -17, i64::MAX, i64::MIN] {
        let mut w = body("write");
        w.key = JsonField::Int(1);
        w.value = JsonField::Int(v);
        let sent = match p.process(&w) {
            ProxyStep::Call(c) => match c.body {
                HttpBody::Put(b) => b.value,
                other => panic!("unexpected {:?}", other),
            },
            other => panic!("unexpected {:?}", other),
        };
        let r = shim_reply(ShimOp::Read, ShimOutcome::Answered(Some(kv(Some(&sent), None))));
        assert_eq!(r, MaelstromReply::ReadOk(Some(v)));
    }
}
