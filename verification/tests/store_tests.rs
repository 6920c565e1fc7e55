use eliaschaosfractal::store::{shard_route, ReplicaStore, BUCKET_COUNT};

#[test]
fn routing_is_deterministic() {
    let a = shard_route("content_abc");
    let b = shard_route("content_abc");
    assert_eq!(a, b);
    assert!(a < BUCKET_COUNT);
    assert!(shard_route("") < BUCKET_COUNT);
}

#[test]
fn bucket_capacity_preserves_oldest() {
    let mut store = ReplicaStore::new();
    let cid = "same_id";
    let idx = shard_route(cid);
    for i in 0..60 {
        store.shard(cid, format!("payload_{}", i));
    }
    assert_eq!(store.bucket_len(idx), 50);
    assert_eq!(store.bucket_item(idx, 0), "payload_0");
    assert_eq!(store.bucket_item(idx, 49), "payload_49");
}

#[test]
fn persist_is_latest_write_wins() {
    let mut store = ReplicaStore::new();
    store.persist("a".to_string(), "one".to_string());
    store.persist("b".to_string(), "two".to_string());
    store.persist("a".to_string(), "three".to_string());
    assert_eq!(store.load("a").unwrap(), "three");
    assert_eq!(store.load("b").unwrap(), "two");
    assert!(store.load("c").is_none());
}

#[test]
fn bandwidth_accounts_bytes() {
    let mut store = ReplicaStore::new();
    assert_eq!(store.bandwidth_used(), 0);
    store.shard("id", "12345".to_string());
    assert_eq!(store.bandwidth_used(), 5);
    store.persist("id".to_string(), "123".to_string());
    assert_eq!(store.bandwidth_used(), 8);
}
