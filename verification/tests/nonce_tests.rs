use api_key_auth::memory_store::MemoryNonceStore;
use api_key_auth::nonce::{nonce_key_of, NonceOutcome, NonceStore};

#[test]
fn first_call_is_fresh_and_second_is_replay() {
    let mut store = MemoryNonceStore::new();
    assert_eq!(store.check_and_set("AK1", "abc123", 300, 1000), Ok(NonceOutcome::Fresh));
    assert_eq!(store.check_and_set("AK1", "abc123", 300, 1000), Ok(NonceOutcome::Replay));
    assert_eq!(store.check_and_set("AK1", "abc123", 300, 1299), Ok(NonceOutcome::Replay));
    assert_eq!(store.len(), 1);
}

#[test]
fn record_expires_at_now_plus_ttl() {
    let mut store = MemoryNonceStore::new();
    assert_eq!(store.check_and_set("AK1", "n", 300, 1000), Ok(NonceOutcome::Fresh));
    let record = store.record("AK1", "n").unwrap();
    assert_eq!(record.namespace, "AK1");
    assert_eq!(record.value, "n");
    assert_eq!(record.expires_at, 1300);
    assert_eq!(store.check_and_set("AK1", "n", 300, 1299), Ok(NonceOutcome::Replay));
    assert_eq!(store.check_and_set("AK1", "n", 300, 1300), Ok(NonceOutcome::Fresh));
    assert_eq!(store.record("AK1", "n").unwrap().expires_at, 1600);
    assert_eq!(store.len(), 1);
}

#[test]
fn replay_does_not_extend_the_record() {
    let mut store = MemoryNonceStore::new();
    assert_eq!(store.check_and_set("AK1", "n", 100, 1000), Ok(NonceOutcome::Fresh));
    assert_eq!(store.check_and_set("AK1", "n", 5000, 1050), Ok(NonceOutcome::Replay));
    assert_eq!(store.record("AK1", "n").unwrap().expires_at, 1100);
}

#[test]
fn expiry_stops_at_the_end_of_time() {
    let mut store = MemoryNonceStore::new();
    assert_eq!(store.check_and_set("AK1", "n", u64::MAX, 10), Ok(NonceOutcome::Fresh));
    assert_eq!(store.record("AK1", "n").unwrap().expires_at, u64::MAX);
    assert_eq!(store.check_and_set("AK1", "n", 1, u64::MAX - 1), Ok(NonceOutcome::Replay));
}

#[test]
fn zero_ttl_records_nothing_that_lasts() {
    let mut store = MemoryNonceStore::new();
    assert_eq!(store.check_and_set("AK1", "n", 0, 1000), Ok(NonceOutcome::Fresh));
    assert_eq!(store.check_and_set("AK1", "n", 0, 1000), Ok(NonceOutcome::Fresh));
}

#[test]
fn namespaces_and_nonces_are_kept_apart() {
    let mut store = MemoryNonceStore::new();
    assert_eq!(store.check_and_set("ab", "c", 300, 1000), Ok(NonceOutcome::Fresh));
    assert_eq!(store.check_and_set("a", "bc", 300, 1000), Ok(NonceOutcome::Fresh));
    assert_eq!(store.check_and_set("abc", "", 300, 1000), Ok(NonceOutcome::Fresh));
    assert_eq!(store.check_and_set("", "abc", 300, 1000), Ok(NonceOutcome::Fresh));
    assert_eq!(store.check_and_set("ab", "c", 300, 1000), Ok(NonceOutcome::Replay));
    assert_eq!(store.len(), 4);
    assert!(store.record("a", "b").is_none());
}

#[test]
fn nonce_key_puts_the_length_of_the_namespace_in_front() {
    assert_eq!(nonce_key_of("AK1", "abc123"), "0000000000000003AK1abc123");
    assert_eq!(nonce_key_of("", ""), "0000000000000000");
    assert_eq!(nonce_key_of("\u{fc}\u{4e2d}", "x"), "0000000000000002\u{fc}\u{4e2d}x");
    assert_ne!(nonce_key_of("ab", "c"), nonce_key_of("a", "bc"));
    let long = "n".repeat(300);
    assert_eq!(nonce_key_of(&long, "z"), format!("000000000000012c{}z", long));
}

#[test]
fn of_fifty_calls_for_one_nonce_exactly_one_is_fresh() {
    let mut store = MemoryNonceStore::new();
    let mut fresh = 0;
    let mut replay = 0;
    for _ in 0..50 {
        match store.check_and_set("AK1", "same", 300, 1_700_000_000) {
            Ok(NonceOutcome::Fresh) => fresh += 1,
            Ok(NonceOutcome::Replay) => replay += 1,
            Err(_) => panic!("a store in memory always answers"),
        }
    }
    assert_eq!(fresh, 1);
    assert_eq!(replay, 49);
}

#[test]
fn prune_gives_back_expired_records_only() {
    let mut store = MemoryNonceStore::new();
    store.check_and_set("k", "a", 10, 1000).unwrap();
    store.check_and_set("k", "b", 500, 1000).unwrap();
    store.check_and_set("k", "c", 20, 1000).unwrap();
    assert_eq!(store.len(), 3);
    assert_eq!(store.backlog(), 3);
    assert_eq!(store.prune(1015, 10), 1);
    assert_eq!(store.len(), 2);
    assert!(store.record("k", "a").is_none());
    assert!(store.record("k", "b").is_some());
    assert!(store.record("k", "c").is_some());
    assert_eq!(store.prune(1020, 10), 1);
    assert!(store.record("k", "c").is_none());
    assert_eq!(store.prune(1499, 10), 0);
    assert_eq!(store.prune(1500, 10), 1);
    assert_eq!(store.len(), 0);
    assert_eq!(store.backlog(), 0);
}

#[test]
fn prune_looks_at_no_more_than_its_limit() {
    let mut store = MemoryNonceStore::new();
    for i in 0..10 {
        store.check_and_set("k", &format!("n{}", i), 10, 1000).unwrap();
    }
    assert_eq!(store.prune(2000, 0), 0);
    assert_eq!(store.len(), 10);
    assert_eq!(store.prune(2000, 3), 3);
    assert_eq!(store.len(), 7);
    assert_eq!(store.prune(2000, 3), 3);
    assert_eq!(store.prune(2000, 100), 4);
    assert_eq!(store.len(), 0);
}

#[test]
fn prune_keeps_live_records_in_line() {
    let mut store = MemoryNonceStore::new();
    store.check_and_set("k", "long", 1000, 1000).unwrap();
    store.check_and_set("k", "short", 10, 1000).unwrap();
    assert_eq!(store.prune(1500, 1), 0);
    assert_eq!(store.prune(1500, 1), 1);
    assert_eq!(store.len(), 1);
    assert_eq!(store.backlog(), 1);
    assert_eq!(store.check_and_set("k", "long", 1000, 1500), Ok(NonceOutcome::Replay));
    assert_eq!(store.prune(2000, store.backlog()), 1);
    assert_eq!(store.len(), 0);
}

#[test]
fn nonce_spent_again_after_expiry_is_pruned_once() {
    let mut store = MemoryNonceStore::new();
    assert_eq!(store.check_and_set("k", "n", 10, 1000), Ok(NonceOutcome::Fresh));
    assert_eq!(store.check_and_set("k", "n", 10, 1010), Ok(NonceOutcome::Fresh));
    assert_eq!(store.len(), 1);
    assert_eq!(store.backlog(), 1);
    assert_eq!(store.prune(1019, 5), 0);
    assert_eq!(store.prune(1020, 5), 1);
    assert_eq!(store.prune(1020, 5), 0);
}
