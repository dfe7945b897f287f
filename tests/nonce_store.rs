use x402_rs::nonce_store::{
    algorand_nonce_key, algorand_ttl_seconds, stellar_nonce_key, stellar_ttl_seconds,
    uses_persistent_backend, DynamoNonceStore, MemoryNonceStore, NonceStore, NonceStoreError,
    PutOutcome,
};

const NOW: u64 = 1_700_000_000;

#[test]
fn test_memory_store_check_and_mark() {
    let mut store = MemoryNonceStore::new();
    let key = "stellar#GABC123#12345";

    assert!(store.check_and_mark_used(key, 3600, NOW).is_ok());

    let result = store.check_and_mark_used(key, 3600, NOW);
    assert!(matches!(result, Err(NonceStoreError::NonceAlreadyUsed(_))));
}

#[test]
fn test_memory_store_is_used() {
    let mut store = MemoryNonceStore::new();
    let key = "algorand#group#abcd1234";

    assert!(!store.is_used(key, NOW));

    store.check_and_mark_used(key, 3600, NOW).unwrap();

    assert!(store.is_used(key, NOW));
}

#[test]
fn test_stellar_nonce_key() {
    let key = stellar_nonce_key("stellar", "GABC123", 12345);
    assert_eq!(key, "stellar#GABC123#12345");
}

#[test]
fn test_algorand_nonce_key() {
    let group_id = [0xab; 32];
    let key = algorand_nonce_key("algorand", &group_id);
    assert!(key.starts_with("algorand#group#"));
    assert!(key.ends_with(&hex::encode([0xab; 32])));
}

#[test]
fn test_stellar_ttl_seconds() {
    let ttl = stellar_ttl_seconds(1000, 1100);
    assert_eq!(ttl, 4100);
}

#[test]
fn test_algorand_ttl_seconds() {
    let ttl = algorand_ttl_seconds(1000, 1100);
    assert_eq!(ttl, 4000);
}

#[test]
fn ttl_of_an_expired_window_is_the_buffer() {
    assert_eq!(stellar_ttl_seconds(1100, 1000), 3600);
    assert_eq!(algorand_ttl_seconds(1100, 1000), 3600);
}

#[test]
fn nonce_replay_scenario() {
    let mut store = MemoryNonceStore::new();
    let key = format!("algorand#group#{}", hex::encode([0xab; 32]));
    assert_eq!(algorand_nonce_key("algorand", &[0xab; 32]), key);
    assert_eq!(store.check_and_mark_used(&key, 3600, NOW), Ok(()));
    assert_eq!(
        store.check_and_mark_used(&key, 3600, NOW),
        Err(NonceStoreError::NonceAlreadyUsed(key.clone()))
    );
}

#[test]
fn replay_refused_through_the_window_and_allowed_after() {
    let mut store = MemoryNonceStore::new();
    store.check_and_mark_used("k", 100, NOW).unwrap();
    assert!(store.check_and_mark_used("k", 100, NOW + 99).is_err());
    assert!(store.is_used("k", NOW + 99));
    assert!(!store.is_used("k", NOW + 100));
    assert!(store.check_and_mark_used("k", 100, NOW + 100).is_ok());
    assert!(store.is_used("k", NOW + 150));
}

#[test]
fn keys_are_independent() {
    let mut store = MemoryNonceStore::new();
    store.check_and_mark_used("a", 100, NOW).unwrap();
    assert!(store.check_and_mark_used("b", 100, NOW).is_ok());
    assert!(!store.is_used("c", NOW));
}

#[test]
fn memory_store_through_the_trait() {
    let mut store = MemoryNonceStore::new();
    let s: &mut dyn NonceStore = &mut store;
    assert_eq!(s.store_type(), "memory");
    assert!(s.health_check().is_ok());
    assert!(s.check_and_mark_used("x", 10, NOW).is_ok());
    assert_eq!(s.is_used("x", NOW), Ok(true));
}

#[test]
fn persistent_backend_write_and_outcomes() {
    let store = DynamoNonceStore::new("facilitator-nonces".to_string());
    assert_eq!(store.store_type(), "dynamodb");
    let item = store.put_item("stellar-testnet#GABC#7", 60, NOW);
    assert_eq!(item.pk, "stellar-testnet#GABC#7");
    assert_eq!(item.chain, "stellar-testnet");
    assert_eq!(item.created_at, NOW);
    assert_eq!(item.expires_at, NOW + 60);
    assert_eq!(store.put_item("nohash", 1, 0).chain, "nohash");
    assert_eq!(DynamoNonceStore::put_result("k", PutOutcome::Written), Ok(()));
    assert_eq!(
        DynamoNonceStore::put_result("k", PutOutcome::ConditionFailed),
        Err(NonceStoreError::NonceAlreadyUsed("k".to_string()))
    );
    assert_eq!(
        DynamoNonceStore::put_result("k", PutOutcome::Failed("throttled".to_string())),
        Err(NonceStoreError::WriteError("throttled".to_string()))
    );
}

#[test]
fn persistent_backend_advisory_read() {
    assert!(DynamoNonceStore::is_used_from(Some("1700000100"), NOW));
    assert!(!DynamoNonceStore::is_used_from(Some("1700000000"), NOW));
    assert!(!DynamoNonceStore::is_used_from(Some("soon"), NOW));
    assert!(!DynamoNonceStore::is_used_from(None, NOW));
}

#[test]
fn backend_selection() {
    assert!(uses_persistent_backend(Some("facilitator-nonces")));
    assert!(!uses_persistent_backend(Some("")));
    assert!(!uses_persistent_backend(None));
}
