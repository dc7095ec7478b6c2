use chain_ingest::block::{BlockTask, SubscribeBlock, SubscribeStatus};
use chain_ingest::json::{
    get_array, get_object, get_str, pick, get_string, get_string_vec, get_type, get_u64, unwrap, JsonMap, JsonValue,
};
use chain_ingest::text::{decimal_string, hex_quantity};

fn sample() -> JsonMap {
    let mut m = JsonMap::new();
    m.insert(String::from("name"), JsonValue::Str(String::from("alice")));
    m.insert(String::from("height"), JsonValue::U64(12));
    m.insert(String::from("list"), JsonValue::Array(vec![JsonValue::Str(String::from("a")), JsonValue::Str(String::from("b"))]));
    m.insert(String::from("inner"), JsonValue::Object(JsonMap::new()));
    m
}

#[test]
fn field_access() {
    let m = sample();
    assert!(unwrap(&m, "name").is_ok());
    assert_eq!(unwrap(&m, "nope").unwrap_err(), "nope does not exist");
    assert_eq!(get_str(&m, "name").unwrap(), "alice");
    assert_eq!(get_str(&m, "height").unwrap_err(), "height is not str");
    assert_eq!(get_string(&m, "name").unwrap(), "alice");
    assert_eq!(get_u64(&m, "height").unwrap(), 12);
    assert_eq!(get_u64(&m, "name").unwrap_err(), "name is not u64");
    assert_eq!(get_array(&m, "list").unwrap().len(), 2);
    assert_eq!(get_array(&m, "name").unwrap_err(), "name is not array");
    assert!(get_object(&m, "inner").is_ok());
    assert_eq!(get_object(&m, "list").unwrap_err(), "list is not object");
    assert_eq!(get_string_vec(&m, "list").unwrap(), vec![String::from("a"), String::from("b")]);
    assert_eq!(get_string_vec(&m, "height").unwrap_err(), "height is not array");
}

#[test]
fn later_entry_wins() {
    let mut m = sample();
    m.insert(String::from("height"), JsonValue::U64(99));
    assert_eq!(get_u64(&m, "height").unwrap(), 99);
}

#[test]
fn kinds_of_values() {
    assert_eq!(get_type(&JsonValue::Str(String::new())).unwrap(), "string");
    assert_eq!(get_type(&JsonValue::U64(1)).unwrap(), "u64");
    assert_eq!(get_type(&JsonValue::I64(-1)).unwrap(), "i64");
    assert_eq!(get_type(&JsonValue::Float).unwrap(), "f64");
    assert_eq!(get_type(&JsonValue::Object(JsonMap::new())).unwrap(), "object");
    assert_eq!(get_type(&JsonValue::Array(Vec::new())).unwrap(), "array");
    assert_eq!(get_type(&JsonValue::Bool(false)).unwrap(), "bool");
    assert_eq!(get_type(&JsonValue::Null).unwrap(), "null");
}

#[test]
fn numbers_as_text() {
    assert_eq!(decimal_string(0), "0");
    assert_eq!(decimal_string(1234567890), "1234567890");
    assert_eq!(hex_quantity(0), "0x0");
    assert_eq!(hex_quantity(0xABCDEF01), "0xABCDEF01");
    assert_eq!(hex_quantity(u64::MAX), "0xFFFFFFFFFFFFFFFF");
}

fn block_params() -> JsonMap {
    let mut m = JsonMap::new();
    m.insert(String::from("chain_id"), JsonValue::Str(String::from("mainnet")));
    m.insert(String::from("start_height"), JsonValue::U64(20));
    m.insert(String::from("nodes"), JsonValue::Array(vec![JsonValue::Str(String::from("http://a/")), JsonValue::Str(String::from("http://b/"))]));
    m
}

#[test]
fn block_subscription() {
    let mut b = SubscribeBlock::new(String::from("ethereum"), &block_params()).unwrap();
    assert_eq!(b.status, SubscribeStatus::Requested);
    assert!(b.is_workable());
    assert_eq!(b.task_id(), "ethereum:mainnet");
    assert_eq!(b.block_id(), "ethereum:mainnet:20");
    assert_eq!(b.request_url(), "http://a/20");
    assert!(b.has_fallback());
    b.node_index = 1;
    assert!(!b.has_fallback());
    assert_eq!(b.request_url(), "http://b/20");
    b.status = SubscribeStatus::Error;
    assert!(!b.is_workable());
    let mut missing = block_params();
    missing.insert(String::from("chain_id"), JsonValue::Null);
    assert_eq!(SubscribeBlock::new(String::from("ethereum"), &missing).unwrap_err(), "chain_id is not str");
}

#[test]
fn block_task() {
    let t = BlockTask::new(String::from("ethereum"), &block_params()).unwrap();
    assert_eq!(t.task_id, "ethereum:mainnet");
    assert_eq!(t.start_height, 20);
    assert_eq!(t.nodes_str(), "[\"http://a/\", \"http://b/\"]");
    assert_eq!(BlockTask::new(String::from("ethereum"), &JsonMap::new()).unwrap_err(), "nodes does not exist");
}

#[test]
fn pick_copies_named_fields() {
    let m = sample();
    let picked = pick(&m, vec!["list", "name"]).unwrap();
    assert_eq!(picked.entries.len(), 2);
    assert_eq!(picked.entries[0].0, "list");
    assert_eq!(get_string_vec(&picked, "list").unwrap(), vec![String::from("a"), String::from("b")]);
    assert_eq!(get_str(&picked, "name").unwrap(), "alice");
    assert!(get_u64(&picked, "height").is_err());
    assert_eq!(pick(&m, vec!["name", "age", "zip"]).unwrap_err(), "age does not belong to map");
    assert_eq!(pick(&m, Vec::new()).unwrap().entries.len(), 0);
}
