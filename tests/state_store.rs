use aargal::model::state_store::StateStore;
use aargal::parser::ParsedEvent;

fn event(ip: &str, status: u16, timestamp: u64) -> ParsedEvent {
    ParsedEvent {
        ip: ip.to_string(),
        status,
        path: "/".to_string(),
        user_agent: None,
        timestamp,
    }
}

#[test]
fn creates_and_retrieves_ip_state() {
    let mut store = StateStore::new(60);

    let state = store.get_or_create("1.2.3.4", 0);
    state.record_request(0);

    let retrieved = store.get("1.2.3.4").unwrap();
    assert_eq!(retrieved.request_count, 1);
}

#[test]
fn same_ip_returns_same_state() {
    let mut store = StateStore::new(60);

    store.get_or_create("1.2.3.4", 0).record_request(0);
    store.get_or_create("1.2.3.4", 0).record_request(0);

    let state = store.get("1.2.3.4").unwrap();
    assert_eq!(state.request_count, 2);
}

#[test]
fn state_store_tracks_multiple_ips() {
    let mut store = StateStore::new(60);

    store.get_or_create("1.1.1.1", 0);
    store.get_or_create("2.2.2.2", 0);

    assert_eq!(store.len(), 2);
}

#[test]
fn expired_states_are_evicted() {
    let mut store = StateStore::new(1);

    store.get_or_create("1.2.3.4", 0);
    assert_eq!(store.len(), 1);

    store.evict_expired(2);

    assert_eq!(store.len(), 0);
}

#[test]
fn mark_blocked_sets_flag() {
    let mut store = StateStore::new(60);

    store.get_or_create("5.6.7.8", 0);
    store.mark_blocked("5.6.7.8");

    let state = store.get("5.6.7.8").unwrap();
    assert!(state.blocked);
}

#[test]
fn marking_unknown_ip_is_safe() {
    let mut store = StateStore::new(60);

    store.mark_blocked("9.9.9.9");
    assert!(store.is_empty());
}

#[test]
fn two_updates_add_two_requests() {
    let mut store = StateStore::new(60);
    store.update(&event("1.2.3.4", 200, 10));
    let before = store.get("1.2.3.4").unwrap().clone();
    let first = store.update(&event("1.2.3.4", 200, 20));
    let second = store.update(&event("1.2.3.4", 404, 30));
    assert_eq!(second.request_count, before.request_count + 2);
    assert!(first.request_count > before.request_count);
    assert!(second.request_count > first.request_count);
    assert_eq!(second.first_seen, before.first_seen);
    assert_eq!(second.error_count, 1);
    assert_eq!(second.last_seen, 30);
    assert_eq!(store.len(), 1);
}

#[test]
fn update_creates_state_on_first_sight() {
    let mut store = StateStore::new(60);
    let s = store.update(&event("10.0.0.1", 500, 7));
    assert_eq!(s.ip, "10.0.0.1");
    assert_eq!((s.request_count, s.error_count), (1, 1));
    assert_eq!((s.first_seen, s.last_seen), (7, 7));
    assert_eq!(store.get("10.0.0.1").unwrap().request_count, 1);
    assert!(store.get("10.0.0.2").is_none());
}

#[test]
fn eviction_keeps_recent_and_drops_idle() {
    let mut store = StateStore::new(60);
    store.update(&event("1.1.1.1", 200, 0));
    store.update(&event("2.2.2.2", 200, 50));
    store.update(&event("3.3.3.3", 200, 40));
    store.evict_expired(100);
    assert!(store.get("1.1.1.1").is_none());
    assert_eq!(store.get("2.2.2.2").unwrap().request_count, 1);
    assert_eq!(store.get("3.3.3.3").unwrap().last_seen, 40);
    assert_eq!(store.len(), 2);
}

#[test]
fn age_equal_to_ttl_survives() {
    let mut store = StateStore::new(60);
    store.update(&event("1.1.1.1", 200, 40));
    store.evict_expired(100);
    assert_eq!(store.len(), 1);
    store.evict_expired(101);
    assert_eq!(store.len(), 0);
}

#[test]
fn reappearance_after_eviction_starts_from_zero() {
    let mut store = StateStore::new(60);
    for t in 0..5u64 {
        store.update(&event("1.2.3.4", 500, t));
    }
    assert_eq!(store.get("1.2.3.4").unwrap().request_count, 5);
    store.mark_blocked("1.2.3.4");
    store.evict_expired(200);
    assert!(store.get("1.2.3.4").is_none());
    let s = store.update(&event("1.2.3.4", 200, 201));
    assert_eq!((s.request_count, s.error_count), (1, 0));
    assert_eq!(s.first_seen, 201);
    assert!(!s.blocked);
}

#[test]
fn update_keeps_address_and_time_order() {
    let mut store = StateStore::new(60);
    let a = store.update(&event("7.7.7.7", 200, 30));
    let b = store.update(&event("7.7.7.7", 200, 10));
    assert_eq!(a.ip, "7.7.7.7");
    assert_eq!(b.ip, "7.7.7.7");
    assert!(b.first_seen <= b.last_seen);
    assert_eq!((b.first_seen, b.last_seen), (30, 30));
    let n = store.len();
    store.update(&event("8.8.8.8", 200, 31));
    assert_eq!(store.len(), n + 1);
    store.update(&event("8.8.8.8", 200, 32));
    assert_eq!(store.len(), n + 1);
}
