use chain_ingest::json::{JsonMap, JsonValue};
use chain_ingest::subscribe::{SubscribeEvent, SubscribeStatus, SubscribeTarget, SubscribeTask};

fn params(nodes: &[&str]) -> JsonMap {
    let mut params = JsonMap::new();
    params.insert(String::from("sub_id"), JsonValue::Str(String::from("cosmoshub-4")));
    params.insert(String::from("start_height"), JsonValue::U64(1u64));
    params.insert(String::from("target"), JsonValue::Str(String::from("block")));
    let list = nodes.iter().map(|n| JsonValue::Str(String::from(*n))).collect();
    params.insert(String::from("nodes"), JsonValue::Array(list));
    params
}

#[test]
fn subscribe_event_task_id_test() {
    let params = params(&["https://api.cosmos.network"]);
    let subscribe_event = SubscribeEvent::new(String::from("tendermint"), &params).unwrap();
    assert_eq!(subscribe_event.task_id, "task:tendermint:block:cosmoshub-4");
}

#[test]
fn subscribe_event_is_workable_test() {
    let params = params(&["https://api.cosmos.network"]);
    let subscribe_event = SubscribeEvent::new(String::from("tendermint"), &params).unwrap();
    assert!(subscribe_event.is_workable());
}

#[test]
fn subscribe_event_event_id_test() {
    let params = params(&["https://api.cosmos.network"]);
    let subscribe_event = SubscribeEvent::new(String::from("tendermint"), &params).unwrap();
    assert_eq!(subscribe_event.event_id(), "tendermint:block:cosmoshub-4:1");
}

#[test]
fn subscribe_event_handle_err_fallback_test() {
    let params = params(&["https://api.cosmos.network", "https://api.cosmos2.network"]);
    let mut subscribe_event = SubscribeEvent::new(String::from("tendermint"), &params).unwrap();
    let saved = subscribe_event.handle_err(String::from("error_test"));
    assert_eq!(subscribe_event.node_idx, 1);
    assert!(saved.is_none());
}

#[test]
fn subscribe_event_handle_err_test() {
    let params = params(&["https://api.cosmos.network"]);
    let mut subscribe_event = SubscribeEvent::new(String::from("tendermint"), &params).unwrap();
    let prev_node_idx = subscribe_event.node_idx;
    let saved = subscribe_event.handle_err(String::from("error_test"));
    assert_eq!(SubscribeStatus::Error, subscribe_event.status);
    assert_eq!(prev_node_idx, subscribe_event.node_idx);
    let task = saved.unwrap();
    assert_eq!(task.err_msg, "error_test");
    assert_eq!(task.status, "error");
}

#[test]
fn new_fills_every_field() {
    let p = params(&["n0", "n1"]);
    let e = SubscribeEvent::new(String::from("ethereum"), &p).unwrap();
    assert_eq!(e.chain, "ethereum");
    assert_eq!(e.sub_id, "cosmoshub-4");
    assert_eq!(e.target, SubscribeTarget::Block);
    assert_eq!(e.start_height, 1);
    assert_eq!(e.curr_height, 1);
    assert_eq!(e.nodes, vec![String::from("n0"), String::from("n1")]);
    assert_eq!(e.node_idx, 0);
    assert_eq!(e.status, SubscribeStatus::Working);
}

#[test]
fn new_reports_missing_field() {
    let mut p = JsonMap::new();
    p.insert(String::from("start_height"), JsonValue::U64(3));
    let r = SubscribeEvent::new(String::from("ethereum"), &p);
    assert_eq!(r.unwrap_err(), "sub_id does not exist");
}

#[test]
fn new_reports_wrong_kind() {
    let mut p = params(&["n0"]);
    p.insert(String::from("start_height"), JsonValue::Str(String::from("7")));
    let r = SubscribeEvent::new(String::from("ethereum"), &p);
    assert_eq!(r.unwrap_err(), "start_height is not u64");
}

#[test]
fn new_reports_unknown_target() {
    let mut p = params(&["n0"]);
    p.insert(String::from("target"), JsonValue::Str(String::from("receipt")));
    let r = SubscribeEvent::new(String::from("ethereum"), &p);
    assert_eq!(r.unwrap_err(), "target is not valid");
}

#[test]
fn new_reports_empty_nodes() {
    let p = params(&[]);
    let r = SubscribeEvent::new(String::from("ethereum"), &p);
    assert_eq!(r.unwrap_err(), "nodes is empty");
}

#[test]
fn new_reports_non_string_node() {
    let mut p = params(&["n0"]);
    p.insert(String::from("nodes"), JsonValue::Array(vec![JsonValue::Str(String::from("a")), JsonValue::U64(2)]));
    let r = SubscribeEvent::new(String::from("ethereum"), &p);
    assert_eq!(r.unwrap_err(), "nodes is not str array");
}

#[test]
fn tx_target_task_id() {
    let mut p = params(&["n0"]);
    p.insert(String::from("target"), JsonValue::Str(String::from("tx")));
    let e = SubscribeEvent::new(String::from("ethereum"), &p).unwrap();
    assert_eq!(e.task_id, "task:ethereum:tx:cosmoshub-4");
    assert_eq!(e.target, SubscribeTarget::Tx);
}

#[test]
fn requested_task_id() {
    let p = params(&["n0"]);
    assert_eq!(SubscribeTask::task_id("ethereum", &p).unwrap(), "task:ethereum:block:cosmoshub-4");
    let empty = JsonMap::new();
    assert_eq!(SubscribeTask::task_id("ethereum", &empty).unwrap_err(), "target does not exist");
}

#[test]
fn snapshot_copies_state() {
    let p = params(&["n0"]);
    let e = SubscribeEvent::new(String::from("ethereum"), &p).unwrap();
    let t = SubscribeTask::new(&e);
    assert_eq!(t.task_id, "task:ethereum:block:cosmoshub-4");
    assert_eq!(t.target, "block");
    assert_eq!(t.chain, "ethereum");
    assert_eq!(t.sub_id, "cosmoshub-4");
    assert_eq!(t.start_height, 1);
    assert_eq!(t.curr_height, 1);
    assert_eq!(t.nodes, vec![String::from("n0")]);
    assert_eq!(t.status, "working");
    assert_eq!(t.err_msg, "");
}

#[test]
fn restore_from_snapshot() {
    let p = params(&["n0", "n1"]);
    let mut e = SubscribeEvent::new(String::from("ethereum"), &p).unwrap();
    e.curr_height = 42;
    e.node_idx = 1;
    let _ = e.err(String::from("down"));
    let t = SubscribeTask::new(&e);
    let back = SubscribeEvent::from_task(&t).unwrap();
    assert_eq!(back.curr_height, 42);
    assert_eq!(back.status, SubscribeStatus::Error);
    assert_eq!(back.nodes, e.nodes);
    assert_eq!(back.node_idx, 0);
    assert_eq!(back.task_id, e.task_id);
}

#[test]
fn restore_rejects_bad_snapshot() {
    let p = params(&["n0"]);
    let e = SubscribeEvent::new(String::from("ethereum"), &p).unwrap();
    let mut t = SubscribeTask::new(&e);
    t.status = String::from("paused");
    assert_eq!(SubscribeEvent::from_task(&t).unwrap_err(), "status is not valid");
    let mut t = SubscribeTask::new(&e);
    t.target = String::from("blocks");
    assert_eq!(SubscribeEvent::from_task(&t).unwrap_err(), "target is not valid");
    let mut t = SubscribeTask::new(&e);
    t.nodes = Vec::new();
    assert_eq!(SubscribeEvent::from_task(&t).unwrap_err(), "nodes is empty");
    let mut t = SubscribeTask::new(&e);
    t.start_height = 5;
    assert_eq!(SubscribeEvent::from_task(&t).unwrap_err(), "curr_height is below start_height");
}

#[test]
fn from_stored_fields() {
    let mut m = JsonMap::new();
    m.insert(String::from("task_id"), JsonValue::Str(String::from("task:ethereum:tx:s1")));
    m.insert(String::from("target"), JsonValue::Str(String::from("tx")));
    m.insert(String::from("chain"), JsonValue::Str(String::from("ethereum")));
    m.insert(String::from("sub_id"), JsonValue::Str(String::from("s1")));
    m.insert(String::from("start_height"), JsonValue::U64(10));
    m.insert(String::from("curr_height"), JsonValue::U64(15));
    m.insert(String::from("nodes"), JsonValue::Array(vec![JsonValue::Str(String::from("n0"))]));
    m.insert(String::from("status"), JsonValue::Str(String::from("stopped")));
    let e = SubscribeEvent::from(&m).unwrap();
    assert_eq!(e.task_id, "task:ethereum:tx:s1");
    assert_eq!(e.target, SubscribeTarget::Tx);
    assert_eq!(e.curr_height, 15);
    assert_eq!(e.status, SubscribeStatus::Stopped);
    assert!(!e.is_workable());
    let mut partial = JsonMap::new();
    partial.insert(String::from("task_id"), JsonValue::Str(String::from("k")));
    assert_eq!(SubscribeEvent::from(&partial).unwrap_err(), "target does not exist");
}

#[test]
fn names_of_targets_and_statuses() {
    assert_eq!(SubscribeTarget::Block.value(), "block");
    assert_eq!(SubscribeTarget::Tx.value(), "tx");
    assert_eq!(SubscribeTarget::find("tx"), Some(SubscribeTarget::Tx));
    assert_eq!(SubscribeTarget::find("Block"), None);
    assert_eq!(SubscribeStatus::Stopped.value(), "stopped");
    assert_eq!(SubscribeStatus::find("error"), Some(SubscribeStatus::Error));
    assert_eq!(SubscribeStatus::find("requested"), None);
}

#[test]
fn event_id_large_height() {
    let p = params(&["n0"]);
    let mut e = SubscribeEvent::new(String::from("ethereum"), &p).unwrap();
    e.curr_height = u64::MAX;
    assert_eq!(e.event_id(), "ethereum:block:cosmoshub-4:18446744073709551615");
}
