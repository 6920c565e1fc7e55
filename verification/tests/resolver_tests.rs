use eliaschaosfractal::node::{Config, SelfEvolvingFractalGossipNode};
use eliaschaosfractal::resolver::{throttle_delay_ns, EliasNLPInterface};
use eliaschaosfractal::{new_nli, process_query};

fn test_config(peer_id: &str) -> Config {
    Config {
        peer_id: peer_id.to_string(),
        redis_host: "localhost".to_string(),
        redis_port: 6379,
        storj_bucket: "bucket".to_string(),
        storj_access_token: "SECRET-REDACTED".to_string(),
        arweave_wallet_key: "SECRET-REDACTED".to_string(),
        signaling_server: "ws://localhost:9000".to_string(),
        max_states: 1000,
        max_total_states: 100000,
        replication_factor: 16,
        query_semaphore_limit: 500,
    }
}

fn fresh_nli(peer_id: &str) -> EliasNLPInterface {
    new_nli(SelfEvolvingFractalGossipNode::new(test_config(peer_id)))
}

#[test]
fn test_nli_recursion() {
    let node = SelfEvolvingFractalGossipNode::new(test_config("node_1"));
    let mut nli = new_nli(node);
    let response = process_query(&mut nli, "chaos".to_string());
    assert!(response.contains("Chaos hums"), "NLI responds to chaos query");
    assert!(response.len() > 20, "NLI generates non-trivial response");
}

#[test]
fn chaos_scenario_with_zero_entropy() {
    // base cap 5, entropy 0: the reflection prefix and the chaos template,
    // with a recursion depth no deeper than the cap
    let mut nli = fresh_nli("p8");
    let response = nli.resolve_with_draws("chaos", &vec![1000; 6]);
    assert!(response.starts_with("Recursion at scale micro: depth 0, entropy 0"));
    assert!(response.contains("Chaos hums at 0"));
    assert!(nli.recursion_depth <= 5);
    assert_eq!(response.matches('|').count(), 1);
}

#[test]
fn recursion_depth_never_exceeds_cap() {
    // draws of zero recurse at every opportunity; with entropy 0 the cap
    // stays at 5, so exactly five full levels run before the capped level
    let mut nli = fresh_nli("p7");
    let response = nli.resolve_with_draws("chaos", &vec![0; 6]);
    assert_eq!(nli.recursion_depth, 5);
    assert!(nli.recursion_breaker);
    assert_eq!(response.matches('|').count(), 2 * 5);
    assert!(response.contains("capped at depth 5"));
}

#[test]
fn breaker_is_sticky() {
    let mut nli = fresh_nli("p6");
    // exhaust the recursion budget once; the breaker trips and stays
    let _ = nli.resolve_with_draws("chaos", &vec![0; 6]);
    assert!(nli.recursion_breaker);
    let capped1 = nli.process_query("speak");
    assert!(capped1.contains("capped at depth"));
    let capped2 = nli.process_query("what is the weather");
    assert!(capped2.contains("capped at depth"));
    assert!(nli.recursion_breaker);
}

#[test]
fn complex_query_caps_early() {
    let mut nli = fresh_nli("cap");
    nli.recursion_depth = 7;
    // depth 7 with weight 4 exceeds twice the cap of 5
    let response = nli.resolve_with_draws("conscious", &vec![1000; 6]);
    assert!(response.contains("Complex query (4)"));
    assert!(response.contains("capped at depth 5"));
    assert!(nli.recursion_breaker);
}

#[test]
fn classification_weights() {
    let nli = fresh_nli("cls");
    assert_eq!(nli.classify_query("chaos now"), 3);
    assert_eq!(nli.classify_query("CONSCIOUS chaos"), 4);
    assert_eq!(nli.classify_query("please speak"), 2);
    assert_eq!(nli.classify_query("hello there"), 1);
    // keyword match is by whole token, not substring
    assert_eq!(nli.classify_query("chaotic"), 1);
}

#[test]
fn template_selection() {
    let mut nli = fresh_nli("tpl");
    let no_recurse = vec![1000u64; 6];
    let speak = nli.resolve_with_draws("Speak to me", &no_recurse);
    assert!(speak.contains("I speak the void"));
    let spacetime = nli.resolve_with_draws("about SPACETIME", &no_recurse);
    assert!(spacetime.contains("Spacetime bends"));
    let conscious = nli.resolve_with_draws("are you conscious", &no_recurse);
    assert!(conscious.contains("strange loop"));
}

#[test]
fn generic_query_fires_chaos_orbit() {
    let mut nli = fresh_nli("gen");
    let before = nli.node.nonce;
    let mut fired = false;
    for _ in 0..200 {
        let response = nli.resolve_with_draws("tell me something", &vec![1000; 6]);
        assert!(response.contains("Your echo stirs"));
        if nli.node.nonce > before {
            fired = true;
            break;
        }
    }
    // the orbit fires with probability one tenth per generic query
    assert!(fired, "an orbit should fire within two hundred generic queries");
}

#[test]
fn contextual_memory_remembers_queries() {
    let mut nli = fresh_nli("mem");
    let _ = nli.process_query("chaos");
    let _ = nli.process_query("speak");
    assert_eq!(nli.contextual_memory.len(), 2);
    assert_eq!(nli.contextual_memory.get(0).content, "chaos");
    assert_eq!(nli.contextual_memory.get_latest().unwrap().content, "speak");
}

#[test]
fn throttle_only_under_load() {
    assert_eq!(throttle_delay_ns(60_000, 9, 2), 400_000_000);
    assert_eq!(throttle_delay_ns(60_000, 8, 2), 0);
    assert_eq!(throttle_delay_ns(10, 20, 4), 0);
    assert_eq!(throttle_delay_ns(60_000, 20, 4), 800_000_000);
}
