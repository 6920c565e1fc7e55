//! A self-synchronizing swarm node.
//!
//! Each node keeps a bounded history of state samples, derives a smoothed
//! entropy signal from it, gossips state to a sampled set of peers under
//! simulated churn, routes encrypted state blobs into sharded buckets, and
//! answers queries through a recursion-bounded resolver throttled by the
//! entropy signal.

use vstd::prelude::*;
use vstd::utf8::encode_utf8;

pub mod entropy;
pub mod gossip;
pub mod node;
pub mod numfmt;
pub mod peers;
pub mod render;
pub mod resolver;
pub mod ring;
pub mod store;
pub mod text;
pub mod topology;
pub mod trusted;

pub use entropy::{CosmicEntropy, EntropySample, RecursionMirror};
pub use gossip::{CosmicGossipProtocol, State};
pub use node::{Config, SelfEvolvingFractalGossipNode};
pub use peers::PeerDiscovery;
pub use render::{FractalSonification, FractalVisualization};
pub use resolver::EliasNLPInterface;
pub use ring::RingBuffer;
pub use store::ReplicaStore;
pub use topology::{AdaptiveTopology, ConsciousnessExperiment, CosmicArchitecturalEvolution,
    KBucket, NetworkMetrics};

verus! {

/// Creates a swarm node from a configuration.
pub fn new_swarm_with_config(config: Config) -> (r: SelfEvolvingFractalGossipNode)
    ensures
        r.wf(),
        r.spec_entropy() == 0,
        r.spec_active_nodes() == 100_000_000_000u64,
        r.spec_history() == Seq::<EntropySample>::empty(),
        r.spec_nonce() == 0,
        r.spec_outbox() == Seq::<State>::empty(),
        r.peers.locals().len() == 1 && r.peers.locals()[0]@ == r.config.peer_id@,
        r.peers.globals() == Seq::<String>::empty(),
        r.store.journal() == Seq::<(String, String)>::empty(),
        r.store.bandwidth() == 0,
        forall|i: int|
            0 <= i < store::BUCKET_COUNT as int ==> #[trigger] r.store.buckets_view()[i]
                == Seq::<String>::empty(),
        r.config == config,
{
    SelfEvolvingFractalGossipNode::new(config)
}

/// Binds a fresh resolver to an existing swarm node.
pub fn new_nli(node: SelfEvolvingFractalGossipNode) -> (r: EliasNLPInterface)
    ensures
        r.node == node,
        r.recursion_depth == 0,
        r.max_depth == resolver::BASE_MAX_DEPTH,
        !r.recursion_breaker,
{
    EliasNLPInterface::new(node)
}

/// Resolves a query through the resolver: the single external entry
/// point. A capped query returns exactly the capped reflection message;
/// every other response opens with the first level's reflection and
/// template; and the query is remembered in the contextual memory.
pub fn process_query(nli: &mut EliasNLPInterface, query: String) -> (r: String)
    requires
        old(nli).node.wf(),
        old(nli).contextual_memory.wf(),
    ensures
        final(nli).node.wf(),
        final(nli).contextual_memory.wf(),
        final(nli).contextual_memory@.len() > 0,
        final(nli).contextual_memory@.last().content@ == query@,
        final(nli).node.spec_entropy() == old(nli).node.spec_entropy(),
        final(nli).node.spec_active_nodes() == old(nli).node.spec_active_nodes(),
        final(nli).pending_delay_ns >= old(nli).pending_delay_ns,
        3 <= final(nli).max_depth <= 5,
        old(nli).recursion_breaker ==> final(nli).recursion_breaker,
        final(nli).recursion_depth <= if old(nli).recursion_depth > resolver::BASE_MAX_DEPTH {
            old(nli).recursion_depth as int
        } else {
            resolver::BASE_MAX_DEPTH as int
        },
        ({
            let e = old(nli).node.spec_entropy() as nat;
            let dim = entropy::spec_fractal_dim_milli(
                Option::Some(entropy::primaries(old(nli).node.spec_history())),
                e,
            );
            let maxd = resolver::spec_adjusted_max_depth(dim, e);
            let w = resolver::spec_classify(text::spec_lower(encode_utf8(query@)));
            resolver::spec_cap_hit(
                old(nli).recursion_depth as nat,
                maxd,
                old(nli).recursion_breaker,
                w,
            ) ==> {
                &&& r@ == resolver::spec_capped_msg(
                    entropy::spec_reflect_msg("micro"@, old(nli).recursion_depth as nat, e, dim),
                    w,
                    maxd,
                )
                &&& final(nli).recursion_breaker
                &&& final(nli).node == old(nli).node
            }
        }),
        ({
            let e = old(nli).node.spec_entropy() as nat;
            let lq = text::spec_lower(encode_utf8(query@));
            let dim = entropy::spec_fractal_dim_milli(
                Option::Some(entropy::primaries(old(nli).node.spec_history())),
                e,
            );
            let maxd = resolver::spec_adjusted_max_depth(dim, e);
            let w = resolver::spec_classify(lq);
            let kind = resolver::spec_template_kind(lq);
            let nodes = old(nli).node.spec_active_nodes() as nat;
            let chaos0 = if old(nli).node.spec_history().len() == 0 {
                old(nli).node.spec_entropy()
            } else {
                old(nli).node.spec_history().last().primary
            };
            let capped0 = resolver::spec_cap_hit(
                old(nli).recursion_depth as nat,
                maxd,
                old(nli).recursion_breaker,
                w,
            );
            &&& (!capped0 && kind != resolver::TemplateKind::Generic)
                ==> resolver::spec_level_opening(
                old(nli).recursion_depth as nat,
                e,
                dim,
                kind,
                nodes,
                chaos0 as nat,
            ).is_prefix_of(r@)
            &&& (!capped0 && kind == resolver::TemplateKind::Generic) ==> exists|dim2: nat|
                #[trigger] resolver::spec_level_opening(
                    old(nli).recursion_depth as nat,
                    e,
                    dim2,
                    resolver::TemplateKind::Generic,
                    nodes,
                    0,
                ).is_prefix_of(r@)
        }),
        exists|t: Seq<char>| r@ == "Recursion at scale "@ + t,
{
    nli.process_query(query.as_str())
}

} // verus!
