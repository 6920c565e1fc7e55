//! The peer sampler: two append-only pools of peer identifiers (locally
//! registered nodes and a synthetic global pool) and a bounded,
//! deterministic sample drawn from both, never including the asking node
//! itself.

use vstd::prelude::*;
use vstd::string::StringExecFns;
use crate::numfmt::{spec_digits, u64_to_string};

verus! {

/// How many peers one sample may draw from each pool.
pub const SAMPLE_CAP: u64 = 500;

/// The first `n` entries of `pool` other than `id`, in pool order.
pub open spec fn spec_take_excl(pool: Seq<String>, id: Seq<char>, n: nat) -> Seq<String>
    decreases pool.len(),
{
    if pool.len() == 0 {
        Seq::empty()
    } else {
        let prev = spec_take_excl(pool.drop_last(), id, n);
        if prev.len() < n && pool.last()@ != id {
            prev.push(pool.last())
        } else {
            prev
        }
    }
}

/// A sample never includes the excluded id and never exceeds its quota
/// or the pool: the asking node cannot appear in its own peer sample.
pub proof fn lemma_sample_excludes_self(pool: Seq<String>, id: Seq<char>, n: nat)
    ensures
        forall|i: int|
            0 <= i < spec_take_excl(pool, id, n).len() ==> spec_take_excl(pool, id, n)[i]@ != id,
        spec_take_excl(pool, id, n).len() <= n,
        spec_take_excl(pool, id, n).len() <= pool.len(),
    decreases pool.len(),
{
    if pool.len() > 0 {
        lemma_sample_excludes_self(pool.drop_last(), id, n);
    }
}

/// A pool that nowhere holds the excluded id and fits inside the quota
/// is sampled whole.
pub proof fn lemma_sample_whole_pool(pool: Seq<String>, id: Seq<char>, n: nat)
    requires
        pool.len() <= n,
        forall|i: int| 0 <= i < pool.len() ==> pool[i]@ != id,
    ensures
        spec_take_excl(pool, id, n) == pool,
    decreases pool.len(),
{
    if pool.len() > 0 {
        lemma_sample_whole_pool(pool.drop_last(), id, n);
        lemma_sample_excludes_self(pool.drop_last(), id, n);
        assert(spec_take_excl(pool, id, n) =~= pool);
    }
}

fn take_excl(pool: &Vec<String>, id: &String, n: usize) -> (r: Vec<String>)
    ensures
        r@ == spec_take_excl(pool@, id@, n as nat),
{
    let mut r: Vec<String> = Vec::new();
    let mut i: usize = 0;
    while i < pool.len()
        invariant
            i <= pool@.len(),
            r@ == spec_take_excl(pool@.take(i as int), id@, n as nat),
        decreases pool@.len() - i,
    {
        proof {
            assert(pool@.take(i + 1).drop_last() =~= pool@.take(i as int));
            lemma_sample_excludes_self(pool@.take(i as int), id@, n as nat);
        }
        if r.len() < n && !(pool[i] == *id) {
            let p = pool[i].clone();
            assert(p@ == pool@[i as int]@);
            r.push(p);
        }
        proof {
            assert(r@ =~= spec_take_excl(pool@.take(i + 1), id@, n as nat));
        }
        i = i + 1;
    }
    proof {
        assert(pool@.take(pool@.len() as int) =~= pool@);
    }
    r
}

/// The registry of known peers: locally registered identifiers and a
/// synthetic global pool, both append-only after startup.
#[derive(Clone)]
pub struct PeerDiscovery {
    local_nodes: Vec<String>,
    global_peers: Vec<String>,
}

impl PeerDiscovery {
    pub closed spec fn locals(&self) -> Seq<String> {
        self.local_nodes@
    }

    pub closed spec fn globals(&self) -> Seq<String> {
        self.global_peers@
    }

    pub fn new() -> (r: Self)
        ensures
            r.locals() == Seq::<String>::empty(),
            r.globals() == Seq::<String>::empty(),
    {
        PeerDiscovery { local_nodes: Vec::new(), global_peers: Vec::new() }
    }

    /// Registers one process-local peer identifier.
    pub fn register_node(&mut self, peer_id: String)
        ensures
            final(self).locals() == old(self).locals().push(peer_id),
            final(self).globals() == old(self).globals(),
    {
        self.local_nodes.push(peer_id);
    }

    /// Populates the synthetic global pool, once: an already populated
    /// pool is left as it is.
    pub fn connect_global(&mut self, count: usize)
        ensures
            final(self).locals() == old(self).locals(),
            old(self).globals().len() > 0 ==> final(self).globals() == old(self).globals(),
            old(self).globals().len() == 0 ==> {
                &&& final(self).globals().len() == count
                &&& forall|i: int|
                    0 <= i < count ==> final(self).globals()[i]@ == "global_"@ + spec_digits(i as nat)
            },
    {
        if self.global_peers.len() > 0 {
            return ;
        }
        let mut i: usize = 0;
        while i < count
            invariant
                self.local_nodes@ == old(self).local_nodes@,
                self.global_peers@.len() == i,
                i <= count,
                forall|j: int|
                    0 <= j < i ==> self.global_peers@[j]@ == "global_"@ + spec_digits(j as nat),
            decreases count - i,
        {
            let mut s = String::from_str("global_");
            s.append(u64_to_string(i as u64).as_str());
            self.global_peers.push(s);
            i = i + 1;
        }
    }

    /// Draws the gossip sample: up to `min(active_nodes / 2, 500)` local
    /// peers other than `self_id`, followed by as many global peers under
    /// the same cap. Deterministic in the pools and the count, and never
    /// includes `self_id`.
    pub fn get_peers(&self, self_id: &str, active_nodes: u64) -> (r: Vec<String>)
        ensures
            ({
                let quota = if active_nodes / 2 < SAMPLE_CAP { active_nodes / 2 } else { SAMPLE_CAP };
                &&& r@ == spec_take_excl(self.locals(), self_id@, quota as nat)
                    + spec_take_excl(self.globals(), self_id@, quota as nat)
                &&& forall|i: int| 0 <= i < r@.len() ==> r@[i]@ != self_id@
            }),
    {
        let quota_u64: u64 = if active_nodes / 2 < SAMPLE_CAP { active_nodes / 2 } else { SAMPLE_CAP };
        let quota: usize = quota_u64 as usize;
        let id_owned = self_id.to_owned();
        let mut r = take_excl(&self.local_nodes, &id_owned, quota);
        let mut g = take_excl(&self.global_peers, &id_owned, quota);
        r.append(&mut g);
        proof {
            lemma_sample_excludes_self(self.locals(), self_id@, quota as nat);
            lemma_sample_excludes_self(self.globals(), self_id@, quota as nat);
        }
        r
    }
}

} // verus!
