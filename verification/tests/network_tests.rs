use eliaschaosfractal::gossip::{CosmicGossipProtocol, State};
use eliaschaosfractal::node::{admission_limit, Config, SelfEvolvingFractalGossipNode};
use eliaschaosfractal::peers::PeerDiscovery;
use eliaschaosfractal::topology::{AdaptiveTopology, CosmicArchitecturalEvolution, NetworkMetrics};

fn test_config(peer_id: &str) -> Config {
    Config {
        peer_id: peer_id.to_string(),
        redis_host: "localhost".to_string(),
        redis_port: 6379,
        storj_bucket: "bucket".to_string(),
        storj_access_token: "SECRET-REDACTED".to_string(),
        arweave_wallet_key: "SECRET-REDACTED".to_string(),
        signaling_server: "ws://localhost:9000".to_string(),
        max_states: 1000,
        max_total_states: 100000,
        replication_factor: 16,
        query_semaphore_limit: 500,
    }
}

#[test]
fn test_state_propagation() {
    let gossip = CosmicGossipProtocol::new();
    let state = State { cid: "1".to_string(), encrypted: "data".to_string() };
    let peers = (0..1000).map(|i| format!("p{}", i)).collect::<Vec<_>>();
    let success = gossip.propagate_state(&state, &peers, 500);
    assert!(success);
}

#[test]
fn propagation_extremes() {
    let gossip = CosmicGossipProtocol::new();
    let state = State { cid: "x".to_string(), encrypted: "data".to_string() };
    let peers = (0..16).map(|i| format!("p{}", i)).collect::<Vec<_>>();
    // no churn with at least the required factor of peers always succeeds
    assert!(gossip.propagate_state(&state, &peers, 0));
    // total churn always fails
    let many = (0..100).map(|i| format!("p{}", i)).collect::<Vec<_>>();
    assert!(!gossip.propagate_state(&state, &many, 1000));
}

#[test]
fn propagation_counts_draws_exactly() {
    let gossip = CosmicGossipProtocol::new();
    let state = State { cid: "x".to_string(), encrypted: "data".to_string() };
    let peers = (0..20).map(|i| format!("p{}", i)).collect::<Vec<_>>();
    // churn 0.5: required factor 20, so 16 successes are needed; only 10 draws reach their peer
    let mut draws = vec![600u64; 10];
    draws.extend(vec![400u64; 10]);
    assert!(!gossip.propagate_with_draws(&state, &peers, 500, &draws));
    // 16 successes meet the threshold exactly
    let mut draws2 = vec![600u64; 16];
    draws2.extend(vec![400u64; 4]);
    assert!(gossip.propagate_with_draws(&state, &peers, 500, &draws2));
}

#[test]
fn peer_sample_ten_local_zero_global() {
    let mut pd = PeerDiscovery::new();
    for i in 0..10 {
        pd.register_node(format!("local_{}", i));
    }
    // active count 20: quota is min(20 / 2, 500) == 10 from each pool
    let sample = pd.get_peers("self", 20);
    assert_eq!(sample.len(), 10);
    for i in 0..10 {
        assert_eq!(sample[i], format!("local_{}", i));
    }
}

#[test]
fn peer_sample_excludes_self() {
    let mut pd = PeerDiscovery::new();
    pd.register_node("self".to_string());
    for i in 0..5 {
        pd.register_node(format!("local_{}", i));
    }
    let sample = pd.get_peers("self", 1000);
    assert_eq!(sample.len(), 5);
    assert!(sample.iter().all(|p| p != "self"));
}

#[test]
fn global_pool_fills_once() {
    let mut pd = PeerDiscovery::new();
    pd.connect_global(5);
    let sample = pd.get_peers("self", 1000);
    assert_eq!(sample.len(), 5);
    assert_eq!(sample[0], "global_0");
    assert_eq!(sample[4], "global_4");
    pd.connect_global(99);
    assert_eq!(pd.get_peers("self", 1000).len(), 5);
}

#[test]
fn test_extreme_load() {
    let node = SelfEvolvingFractalGossipNode::new(test_config("test"));
    let metrics = NetworkMetrics::new();
    // hundredths of a percent: at least 99.95
    assert!(metrics.resilience_score(&node) >= 9995);
}

#[test]
fn throughput_is_queries_per_second() {
    let node = SelfEvolvingFractalGossipNode::new(test_config("test"));
    let metrics = NetworkMetrics::new();
    assert_eq!(metrics.throughput(&node, 100, 4), 25);
}

#[test]
fn admission_never_below_floor() {
    assert_eq!(admission_limit(0), 500);
    assert_eq!(admission_limit(499_999), 500);
    assert_eq!(admission_limit(100_000_000_000), 100_000_000);
}

#[test]
fn topology_sizing() {
    let mut topo = AdaptiveTopology::new();
    let buckets = topo.optimize_for_peers(10_000_000);
    assert_eq!(buckets.len(), 5000);
    assert_eq!(buckets[42].distance, 42);
    assert_eq!(buckets[42].k, 4000);
    assert!(buckets[42].peers.is_empty());
    let small = topo.optimize_for_peers(1000);
    assert_eq!(small.len(), 2500);
    assert_eq!(topo.get_buckets().len(), 2500);
}

#[test]
fn low_fitness_grows_state_budget() {
    let node = SelfEvolvingFractalGossipNode::new(test_config("test"));
    let mut evo = CosmicArchitecturalEvolution::new();
    // one hundred billion active nodes: fitness 0, which spawns capacity
    let fitness = evo.evaluate_cosmic_fitness(&node);
    assert_eq!(fitness, 0);
    assert_eq!(evo.max_states, 850_000_000);
}
