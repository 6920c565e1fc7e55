use eliaschaosfractal::node::{Config, SelfEvolvingFractalGossipNode};
use eliaschaosfractal::{
    new_swarm_with_config, ConsciousnessExperiment, FractalSonification, FractalVisualization,
};

fn test_config(peer_id: &str) -> Config {
    Config {
        peer_id: peer_id.to_string(),
        redis_host: "localhost".to_string(),
        redis_port: 6379,
        storj_bucket: "bucket".to_string(),
        storj_access_token: "SECRET-REDACTED".to_string(),
        arweave_wallet_key: "SECRET-REDACTED".to_string(),
        signaling_server: "ws://localhost:9000".to_string(),
        max_states: 1000,
        max_total_states: 100000,
        replication_factor: 16,
        query_semaphore_limit: 500,
    }
}

#[test]
fn test_swarm_creation() {
    let node = new_swarm_with_config(test_config("node_1"));
    assert_eq!(node.active_nodes, 100_000_000_000, "Swarm initializes with 100B nodes");
    assert_eq!(node.entropy, 0, "Entropy starts at 0");
}

#[test]
fn test_node_initialization() {
    let node = SelfEvolvingFractalGossipNode::new(test_config("test"));
    assert_eq!(node.config.peer_id, "test");
    assert_eq!(node.nonce, 0);
    assert!(node.outbox.is_empty());
}

#[test]
fn encryption_is_deterministic_base64_of_digest() {
    let node = SelfEvolvingFractalGossipNode::new(test_config("test"));
    let a = node.encrypt_state(7, "orbit", 1234);
    let b = node.encrypt_state(7, "orbit", 1234);
    // base64 of a 32-byte digest is 44 characters with padding
    assert_eq!(a.len(), 44);
    assert_eq!(a, b);
    let c = node.encrypt_state(8, "orbit", 1234);
    assert_ne!(a, c);
}

#[test]
fn derived_keys_differ_by_nonce() {
    let node = SelfEvolvingFractalGossipNode::new(test_config("test"));
    let k1 = node.derive_key(5, 0);
    let k2 = node.derive_key(5, 1);
    assert_eq!(k1.len(), 32);
    assert_ne!(k1, k2);
    assert_eq!(k1, node.derive_key(5, 0));
}

#[test]
fn chaos_orbit_fires_on_low_draw() {
    let mut node = SelfEvolvingFractalGossipNode::new(test_config("test"));
    let reflection = node.chaos_orbit_with_draws(50, 500, 1234);
    let msg = reflection.expect("a draw below the trigger probability fires the orbit");
    assert!(msg.starts_with("Recursion at scale meso"));
    assert_eq!(node.nonce, 1);
    assert_eq!(node.chaos_history.len(), 1);
    assert_eq!(node.outbox.len(), 1);
    assert_eq!(node.outbox[0].cid, "chaos_0");
    assert_eq!(node.outbox[0].encrypted.len(), 44);
    assert_eq!(node.store.load("chaos_0").unwrap(), &node.outbox[0].encrypted);
}

#[test]
fn chaos_orbit_skips_on_high_draw() {
    let mut node = SelfEvolvingFractalGossipNode::new(test_config("test"));
    let reflection = node.chaos_orbit_with_draws(500, 500, 1234);
    assert!(reflection.is_none());
    assert_eq!(node.nonce, 0);
    assert_eq!(node.chaos_history.len(), 0);
}

#[test]
fn sync_cycle_appends_history_and_skips_persistence_without_peers() {
    let mut node = SelfEvolvingFractalGossipNode::new(test_config("solo"));
    // the only registered peer is the node itself, so the sample is empty
    // and propagation can never reach the replication threshold
    let persisted = node.run_sync_cycle(1234);
    assert!(!persisted);
    assert_eq!(node.entropy, 0);
    assert_eq!(node.chaos_history.len(), 1);
    assert_eq!(node.nonce, 0);
}

#[test]
fn synchronize_persists_on_no_churn() {
    let mut node = SelfEvolvingFractalGossipNode::new(test_config("test"));
    let peers = (0..20).map(|i| format!("p{}", i)).collect::<Vec<_>>();
    let ok = node.synchronize_with_network(peers, 0, 99);
    assert!(ok);
    assert_eq!(node.nonce, 1);
    assert_eq!(node.active_nodes, 20);
    assert!(node.store.load("state_0").is_some());
    let records = node.take_outbox();
    assert_eq!(records.len(), 1);
    assert_eq!(records[0].cid, "state_0");
    assert!(node.outbox.is_empty());
}

#[test]
fn monitor_restores_active_count() {
    let mut node = SelfEvolvingFractalGossipNode::new(test_config("test"));
    node.monitor_chaos_step(100);
    assert_eq!(node.active_nodes, 1_000_000);
    assert_eq!(node.chaos_history.len(), 1);
    assert_eq!(node.chaos_history.get_latest().unwrap().tertiary, 820);
}

#[test]
fn sonification_queue_holds_two() {
    let mut s = FractalSonification::new();
    assert_eq!(s.sonify(42).unwrap(), "Cosmic hum: 42");
    assert_eq!(s.sonify(7).unwrap(), "Cosmic hum: 7");
    assert!(s.sonify(9).is_none());
    assert_eq!(s.pop_message().unwrap(), "Cosmic hum: 42");
    assert_eq!(s.sonify(9).unwrap(), "Cosmic hum: 9");
}

#[test]
fn experiment_scales_entropy_by_three_halves() {
    let mut node = SelfEvolvingFractalGossipNode::new(test_config("test"));
    let experiment = ConsciousnessExperiment::new();
    assert_eq!(experiment.simulate(&node), 0);
    node.entropy = 1000;
    for _ in 0..20 {
        // the draw is below one, so the result stays below 1.5x entropy
        assert!(experiment.simulate(&node) < 1500);
    }
}

#[test]
fn visualization_plane_size() {
    let v = FractalVisualization::new();
    assert_eq!(v.plane_size(200 * 200), 400);
    assert_eq!(v.plane_size(500_000), 200);
}
