// The connection's decisions, driven with requests as a peer would send them.
use iron_vault::connection::{handle_request, on_event, Action, Event};
use iron_vault::in_memory_db::get::{get, GetRequest};
use iron_vault::in_memory_db::set::SetRequest;
use iron_vault::in_memory_db::{KeyValueStore, Request};

fn set_request(key: &str, value: &str, ttl: Option<u64>) -> Request {
    Request::SetValue(SetRequest { key: key.to_string(), value: value.to_string(), ttl })
}

fn get_request(key: &str) -> Request {
    Request::GetValue(GetRequest { key: key.to_string() })
}

#[test]
fn test_tcp_set_and_get() {
    let mut store = KeyValueStore::new();
    let now: u64 = 1000;

    let (response, timer) = handle_request(&mut store, set_request("key1", "value1", None), now);
    assert_eq!(response.status, "ok");
    assert_eq!(response.value, None);
    assert!(timer.is_none());

    let (response, timer) = handle_request(&mut store, get_request("key1"), now);
    assert_eq!(response.status, "ok");
    assert_eq!(response.value, Some("value1".to_string()));
    assert!(timer.is_none());
}

#[test]
fn test_tcp_set_with_ttl() {
    let mut store = KeyValueStore::new();
    let now: u64 = 1000;

    let (response, _) = handle_request(&mut store, set_request("key2", "value2", Some(2)), now);
    assert_eq!(response.status, "ok");
    assert_eq!(response.value, None);

    let (response, _) = handle_request(&mut store, get_request("key2"), now);
    assert_eq!(response.status, "ok");
    assert_eq!(response.value, Some("value2".to_string()));

    let (response, _) = handle_request(&mut store, get_request("key2"), now + 3000);
    assert_eq!(response.status, "ok");
    assert_eq!(response.value, None);
}

#[test]
fn get_miss_answers_ok_without_value() {
    let mut store = KeyValueStore::new();
    let (response, timer) = handle_request(&mut store, get_request("absent"), 0);
    assert_eq!(response.status, "ok");
    assert_eq!(response.value, None);
    assert!(timer.is_none());
}

#[test]
fn set_with_ttl_hands_back_its_timer() {
    let mut store = KeyValueStore::new();
    let (_, timer) = handle_request(&mut store, set_request("key2", "value2", Some(2000)), 500);
    let timer = timer.unwrap();
    assert_eq!(timer.key, "key2");
    assert_eq!(timer.delay_ms, 2000);
    assert_eq!(timer.expires_at, 2500);
    // After more than 2000 ms the value is gone.
    assert_eq!(get(&mut store, "key2".to_string(), 2501), None);
}

#[test]
fn end_of_stream_finishes_without_touching_the_store() {
    let mut store = KeyValueStore::new();
    handle_request(&mut store, set_request("k", "v", None), 0);
    assert!(matches!(on_event(&mut store, Event::EndOfStream, 1), Action::Finish));
    assert_eq!(store.len(), 1);
    assert_eq!(get(&mut store, "k".to_string(), 2), Some("v".to_string()));
}

#[test]
fn malformed_request_aborts_without_touching_the_store() {
    let mut store = KeyValueStore::new();
    handle_request(&mut store, set_request("k", "v", Some(10)), 0);
    assert!(matches!(on_event(&mut store, Event::Malformed, 1), Action::Abort));
    assert_eq!(store.len(), 1);
    assert_eq!(get(&mut store, "k".to_string(), 2), Some("v".to_string()));
}

#[test]
fn received_request_is_answered() {
    let mut store = KeyValueStore::new();
    match on_event(&mut store, Event::Received(set_request("k", "v", None)), 0) {
        Action::Reply { response, timer } => {
            assert_eq!(response.status, "ok");
            assert_eq!(response.value, None);
            assert!(timer.is_none());
        }
        _ => panic!("a request must be answered"),
    }
    assert_eq!(get(&mut store, "k".to_string(), 1), Some("v".to_string()));
}
