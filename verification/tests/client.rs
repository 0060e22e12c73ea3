use omnikv::client::{Client, HttpNotice, HttpQueries, RunAction, RunEvent};
use omnikv::client_data::{ClientData, RequestRecord};
use omnikv::http_client::KvResp;
use omnikv::kv::{ClientMessage, KVCommand, ServerMessage};

#[test]
fn new_client_starts_empty() {
    let c = Client::new(3);
    assert_eq!(c.id(), 3);
    assert_eq!(c.active_server(), 3);
    assert_eq!(c.client_data().request_count(), 0);
    assert_eq!(c.final_request_count(), None);
    assert_eq!(c.next_request_id(), 0);
    assert!(!c.run_finished());
}

#[test]
fn requests_use_increasing_ids_as_keys() {
    let mut c = Client::new(1);
    let m0 = c.next_request(true, 100);
    assert_eq!(m0, ClientMessage::Append(0, KVCommand::Put("0".into(), "0".into())));
    let m1 = c.next_request(false, 101);
    assert_eq!(m1, ClientMessage::Append(1, KVCommand::Get("1".into())));
    for _ in 0..9 {
        c.next_request(false, 102);
    }
    let m11 = c.next_request(true, 103);
    assert_eq!(m11, ClientMessage::Append(11, KVCommand::Put("11".into(), "11".into())));
    assert_eq!(c.client_data().request_count(), 12);
    assert_eq!(
        c.client_data().record(0),
        RequestRecord { command_id: 0, request_time: 100, write: true, response_time: None }
    );
    assert_eq!(c.client_data().record(11).command_id, 11);
}

#[test]
fn custom_request_reads_the_value_as_key() {
    let mut c = Client::new(1);
    let m = c.custom_request(4711, 5);
    assert_eq!(m, ClientMessage::Append(0, KVCommand::Get("4711".into())));
    assert!(!c.client_data().record(0).write);
}

#[test]
fn replies_are_logged_once_by_command_id() {
    let mut c = Client::new(1);
    c.next_request(true, 10);
    c.next_request(false, 11);
    c.handle_server_message(ServerMessage::Write(0), 20);
    c.handle_server_message(ServerMessage::Write(0), 30);
    c.handle_server_message(ServerMessage::StartSignal(99), 40);
    c.handle_server_message(ServerMessage::Write(7), 45);
    assert_eq!(c.client_data().response_count(), 1);
    assert_eq!(c.client_data().record(0).response_time, Some(20));
    assert_eq!(c.client_data().record(1).response_time, None);
    c.handle_server_message(ServerMessage::Read(1, None), 50);
    assert_eq!(c.client_data().response_count(), 2);
}

#[test]
fn log_follows_ids_across_http_queries() {
    let mut c = Client::new(1);
    let mut q = HttpQueries::new();
    c.next_request(false, 1);
    c.http_request(&mut q, KVCommand::Get("h".into()));
    let m = c.next_request(false, 2);
    assert_eq!(m, ClientMessage::Append(2, KVCommand::Get("2".into())));
    // The reply to the HTTP query (id 1) is logged on no benchmark request.
    c.handle_server_message(ServerMessage::Read(1, None), 3);
    assert_eq!(c.client_data().response_count(), 0);
    c.handle_server_message(ServerMessage::Read(2, None), 4);
    assert_eq!(c.client_data().record(1).command_id, 2);
    assert_eq!(c.client_data().record(1).response_time, Some(4));
}

#[test]
fn finishing_ends_the_run() {
    let mut c = Client::new(1);
    c.next_request(false, 1);
    assert!(!c.run_finished());
    c.finish_requests();
    assert_eq!(c.final_request_count(), Some(1));
    assert!(c.run_finished());
}

#[test]
fn run_steps() {
    let mut c = Client::new(1);
    assert_eq!(
        c.run_step(RunEvent::RequestTick(true), 5),
        RunAction::Send(ClientMessage::Append(0, KVCommand::Put("0".into(), "0".into())))
    );
    assert_eq!(
        c.run_step(RunEvent::RequestTick(false), 6),
        RunAction::Send(ClientMessage::Append(1, KVCommand::Get("1".into())))
    );
    assert_eq!(c.run_step(RunEvent::ServerReply(ServerMessage::Write(0)), 7), RunAction::Continue);
    assert_eq!(c.run_step(RunEvent::IntervalEnd(true), 8), RunAction::Continue);
    assert_eq!(c.run_step(RunEvent::IntervalEnd(false), 9), RunAction::Stop);
    assert_eq!(c.final_request_count(), Some(2));
    assert_eq!(c.run_step(RunEvent::RequestTick(true), 10), RunAction::Continue);
    assert_eq!(c.next_request_id(), 2);
    assert_eq!(c.run_step(RunEvent::ServerReply(ServerMessage::Read(1, None)), 11), RunAction::Stop);
    assert_eq!(c.client_data().response_count(), 2);
}

#[test]
fn http_queries_get_fresh_ids_and_one_answer() {
    let mut c = Client::new(2);
    let mut q = HttpQueries::new();
    let m = c.http_request(&mut q, KVCommand::Get("a".into()));
    assert_eq!(m, ClientMessage::Append(0, KVCommand::Get("a".into())));
    let m = c.http_request(&mut q, KVCommand::Put("a".into(), "b".into()));
    assert_eq!(m, ClientMessage::Append(1, KVCommand::Put("a".into(), "b".into())));
    assert_eq!(c.client_data().request_count(), 0);
    let r = q.http_reply(ServerMessage::Write(1));
    assert_eq!(r, Some((1, KvResp { ok: true, value: None, swapped: None, error: None })));
    assert_eq!(q.http_reply(ServerMessage::Write(1)), None);
    let r = q.http_reply(ServerMessage::Read(0, Some("b".into())));
    assert_eq!(r, Some((0, KvResp { ok: true, value: Some("b".into()), swapped: None, error: None })));
    assert_eq!(q.http_reply(ServerMessage::StartSignal(0)), None);
    assert_eq!(q.http_reply(ServerMessage::Read(7, None)), None);
}

#[test]
fn http_loop_leaves_the_clients_pending_set_alone() {
    let mut c = Client::new(2);
    let mut q = HttpQueries::new();
    c.http_request(&mut q, KVCommand::Get("k".into()));
    c.custom_request(5, 0);
    assert_eq!(c.handle_server_message_with_http(ServerMessage::Read(0, Some("v".into())), 9), HttpNotice::NotPending);
    assert_eq!(c.handle_server_message_with_http(ServerMessage::Read(1, Some("v".into())), 9), HttpNotice::NotPending);
    assert_eq!(c.client_data().record(0).response_time, Some(9));
}

#[test]
fn sync_plan_sleeps_only_before_start() {
    let p = Client::sync_plan(1_000, 400);
    assert_eq!(p.sync_time, 600);
    assert_eq!(p.sleep_ms, Some(600));
    let p = Client::sync_plan(1_000, 1_000);
    assert_eq!(p.sync_time, 0);
    assert_eq!(p.sleep_ms, None);
    let p = Client::sync_plan(1_000, 1_500);
    assert_eq!(p.sync_time, -500);
    assert_eq!(p.sleep_ms, None);
}

#[test]
fn client_data_counts() {
    let mut d = ClientData::new();
    d.new_request(4, true, 1);
    d.new_request(9, false, 2);
    assert_eq!(d.position(9), Some(1));
    assert_eq!(d.position(5), None);
    d.new_response(9, 3);
    d.new_response(5, 3);
    assert_eq!(d.request_count(), 2);
    assert_eq!(d.response_count(), 1);
    assert_eq!(d.record(1).response_time, Some(3));
}
