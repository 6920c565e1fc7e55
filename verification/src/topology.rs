//! Topology sizing, capacity evolution and network metrics: the small
//! arithmetic rules the node reports and adapts by.

use vstd::prelude::*;
use crate::node::SelfEvolvingFractalGossipNode;
use crate::trusted::random_millis;
use crate::numfmt::lemma_mul_le;

verus! {

/// One routing bucket of the adaptive topology.
pub struct KBucket {
    pub distance: usize,
    pub k: usize,
    pub peers: Vec<String>,
}

/// The adaptive routing topology: a bucket list resized to the peer
/// count.
pub struct AdaptiveTopology {
    pub k_buckets: Vec<KBucket>,
}

/// How many buckets a peer count asks for: one per two thousand peers,
/// never fewer than the floor.
pub open spec fn spec_bucket_count(count: nat) -> nat {
    if count / 2000 > 2500 {
        count / 2000
    } else {
        2500
    }
}

impl AdaptiveTopology {
    pub fn new() -> (r: Self)
        ensures
            r.k_buckets@.len() == 0,
    {
        AdaptiveTopology { k_buckets: Vec::new() }
    }

    /// Rebuilds the bucket list for a peer count: consecutive distances,
    /// a fixed bucket size, no peers yet. Returns an equal list.
    pub fn optimize_for_peers(&mut self, count: usize) -> (r: Vec<KBucket>)
        ensures
            final(self).k_buckets@.len() == spec_bucket_count(count as nat),
            r@.len() == spec_bucket_count(count as nat),
            forall|i: int|
                0 <= i < r@.len() ==> {
                    &&& (#[trigger] r@[i]).distance == i
                    &&& r@[i].k == 4000
                    &&& r@[i].peers@.len() == 0
                },
            forall|i: int|
                0 <= i < final(self).k_buckets@.len() ==> {
                    &&& (#[trigger] final(self).k_buckets@[i]).distance == i
                    &&& final(self).k_buckets@[i].k == 4000
                    &&& final(self).k_buckets@[i].peers@.len() == 0
                },
    {
        let by_count = count / 2000;
        let bucket_count: usize = if by_count > 2500 {
            by_count
        } else {
            2500
        };
        let mut own: Vec<KBucket> = Vec::new();
        let mut out: Vec<KBucket> = Vec::new();
        let mut i: usize = 0;
        while i < bucket_count
            invariant
                i <= bucket_count,
                own@.len() == i,
                out@.len() == i,
                forall|j: int|
                    0 <= j < i ==> {
                        &&& (#[trigger] own@[j]).distance == j
                        &&& own@[j].k == 4000
                        &&& own@[j].peers@.len() == 0
                    },
                forall|j: int|
                    0 <= j < i ==> {
                        &&& (#[trigger] out@[j]).distance == j
                        &&& out@[j].k == 4000
                        &&& out@[j].peers@.len() == 0
                    },
            decreases bucket_count - i,
        {
            own.push(KBucket { distance: i, k: 4000, peers: Vec::new() });
            out.push(KBucket { distance: i, k: 4000, peers: Vec::new() });
            i = i + 1;
        }
        self.k_buckets = own;
        out
    }

    pub fn get_buckets(&self) -> (r: &Vec<KBucket>)
        ensures
            r@ == self.k_buckets@,
    {
        &self.k_buckets
    }
}

/// Capacity evolution: grows the state budget when fitness drops.
pub struct CosmicArchitecturalEvolution {
    pub max_states: usize,
}

/// The fitness of a node in thousandths: the headroom left under the
/// five-million-peer baseline, zero once the baseline is reached.
pub open spec fn spec_fitness_milli(active: nat) -> nat {
    if active >= 5_000_000 {
        0
    } else {
        (1000 - active * 1000 / 5_000_000) as nat
    }
}

impl CosmicArchitecturalEvolution {
    pub fn new() -> (r: Self)
        ensures
            r.max_states == 800_000_000,
    {
        CosmicArchitecturalEvolution { max_states: 800_000_000 }
    }

    /// Evaluates the node's fitness; low fitness grows the state budget
    /// by one spawn step, saturating at the address-space limit.
    pub fn evaluate_cosmic_fitness(&mut self, node: &SelfEvolvingFractalGossipNode) -> (r: u64)
        ensures
            r == spec_fitness_milli(node.spec_active_nodes() as nat),
            r < 750 ==> final(self).max_states == if old(self).max_states + 50_000_000
                <= usize::MAX {
                old(self).max_states + 50_000_000
            } else {
                usize::MAX as int
            },
            r >= 750 ==> final(self).max_states == old(self).max_states,
    {
        let active = node.active_nodes;
        let fitness: u64 = if active >= 5_000_000 {
            0
        } else {
            1000 - active * 1000 / 5_000_000
        };
        if fitness < 750 {
            self.spawn_new_node();
        }
        fitness
    }

    fn spawn_new_node(&mut self)
        ensures
            final(self).max_states == if old(self).max_states + 50_000_000 <= usize::MAX {
                old(self).max_states + 50_000_000
            } else {
                usize::MAX as int
            },
    {
        self.max_states = if self.max_states <= usize::MAX - 50_000_000 {
            self.max_states + 50_000_000
        } else {
            usize::MAX
        };
    }
}

/// Reported network metrics.
#[derive(Clone)]
pub struct NetworkMetrics;

impl NetworkMetrics {
    pub fn new() -> (r: Self) {
        NetworkMetrics
    }

    /// The resilience score in hundredths of a percent: the active-node
    /// count against the five-million baseline, capped just under full.
    pub fn resilience_score(&self, node: &SelfEvolvingFractalGossipNode) -> (r: u64)
        ensures
            r == if node.spec_active_nodes() / 500 > 9999 {
                9999int
            } else {
                (node.spec_active_nodes() / 500) as int
            },
    {
        let score = node.active_nodes / 500;
        if score > 9999 {
            9999
        } else {
            score
        }
    }

    /// Whole queries answered per second.
    pub fn throughput(&self, _node: &SelfEvolvingFractalGossipNode, queries: usize, seconds: u64) -> (r:
        u64)
        requires
            seconds > 0,
        ensures
            r == queries as u64 / seconds,
    {
        queries as u64 / seconds
    }
}

/// What one experiment draw observes: the entropy scaled by the draw and
/// by three halves, saturating at the largest representable value.
pub open spec fn spec_experiment_value(entropy: u64, d: u64) -> int {
    let v = entropy * 3 * d / 2000;
    if v > u64::MAX {
        u64::MAX as int
    } else {
        v
    }
}

/// A toy observation drawn from the entropy value.
#[derive(Clone)]
pub struct ConsciousnessExperiment;

impl ConsciousnessExperiment {
    pub fn new() -> (r: Self) {
        ConsciousnessExperiment
    }

    /// Draws a random observation up to one and a half times the node's
    /// entropy: the exact value for whatever fraction was drawn.
    pub fn simulate(&self, node: &SelfEvolvingFractalGossipNode) -> (r: u64)
        ensures
            exists|d: u64|
                d < 1000 && r as int == #[trigger] spec_experiment_value(node.spec_entropy(), d),
    {
        let d = random_millis();
        let e = node.entropy;
        proof {
            lemma_mul_le(e as int * 3, d as int, u64::MAX as int * 3, 999);
        }
        let scaled: u128 = (e as u128) * 3 * (d as u128) / 2000;
        let r: u64 = if scaled > u64::MAX as u128 {
            u64::MAX
        } else {
            scaled as u64
        };
        proof {
            assert(r as int == spec_experiment_value(node.spec_entropy(), d));
        }
        r
    }
}

} // verus!
