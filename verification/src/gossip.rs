//! The gossip protocol: deciding whether one propagation attempt reached
//! enough peers under churn.
//!
//! Churn and per-peer delivery draws are in thousandths: `0` means no
//! churn, `1000` certain churn. A delivery attempt reaches its peer when
//! its draw is at least the churn, so no churn never loses a peer and
//! total churn loses every one.

use vstd::prelude::*;
use crate::trusted::random_millis;

verus! {

/// A propagated state record: a content id and the opaque encrypted
/// payload derived from it.
#[derive(Clone)]
pub struct State {
    pub cid: String,
    pub encrypted: String,
}

/// The required replication factor under churn (churn in thousandths):
/// `16 + floor(churn * 0.09 * 100)` for churn as a fraction of one.
pub open spec fn spec_required_factor(churn: nat) -> nat {
    16 + churn * 9 / 1000
}

/// Whether a success count clears the threshold: at least 80% of the
/// required factor, compared without rounding.
pub open spec fn spec_propagation_succeeds(count: nat, churn: nat) -> bool {
    10 * count >= 8 * spec_required_factor(churn)
}

/// How many delivery draws reached their peer: those at least the churn.
pub open spec fn spec_success_count(draws: Seq<u64>, churn: u64) -> nat
    decreases draws.len(),
{
    if draws.len() == 0 {
        0
    } else {
        spec_success_count(draws.drop_last(), churn) + if draws.last() >= churn {
            1nat
        } else {
            0nat
        }
    }
}

proof fn lemma_success_count_le_len(draws: Seq<u64>, churn: u64)
    ensures
        spec_success_count(draws, churn) <= draws.len(),
    decreases draws.len(),
{
    if draws.len() > 0 {
        lemma_success_count_le_len(draws.drop_last(), churn);
    }
}

proof fn lemma_count_no_churn(draws: Seq<u64>)
    ensures
        spec_success_count(draws, 0) == draws.len(),
    decreases draws.len(),
{
    if draws.len() > 0 {
        lemma_count_no_churn(draws.drop_last());
    }
}

proof fn lemma_count_total_churn(draws: Seq<u64>, churn: u64)
    requires
        churn >= 1000,
        forall|i: int| 0 <= i < draws.len() ==> draws[i] < 1000,
    ensures
        spec_success_count(draws, churn) == 0,
    decreases draws.len(),
{
    if draws.len() > 0 {
        lemma_count_total_churn(draws.drop_last(), churn);
    }
}

/// Decides whether one propagation attempt counts as successful.
#[derive(Clone)]
pub struct CosmicGossipProtocol;

impl CosmicGossipProtocol {
    pub fn new() -> (r: Self) {
        CosmicGossipProtocol
    }

    /// The deterministic core: given one delivery draw per peer, the
    /// attempt succeeds exactly when the number of draws at least the
    /// churn reaches 80% of the required factor.
    pub fn propagate_with_draws(
        &self,
        state: &State,
        peers: &Vec<String>,
        churn: u64,
        draws: &Vec<u64>,
    ) -> (r: bool)
        requires
            churn <= 1000,
            draws@.len() == peers@.len(),
        ensures
            r == spec_propagation_succeeds(spec_success_count(draws@, churn), churn as nat),
    {
        let mut successes: usize = 0;
        let mut i: usize = 0;
        while i < draws.len()
            invariant
                i <= draws@.len(),
                successes == spec_success_count(draws@.take(i as int), churn),
                successes <= i,
            decreases draws@.len() - i,
        {
            proof {
                assert(draws@.take(i + 1).drop_last() =~= draws@.take(i as int));
                lemma_success_count_le_len(draws@.take(i + 1), churn);
            }
            if draws[i] >= churn {
                successes = successes + 1;
            }
            i = i + 1;
        }
        proof {
            assert(draws@.take(draws@.len() as int) =~= draws@);
        }
        let factor: u64 = 16 + churn * 9 / 1000;
        10 * (successes as u64) as u128 >= 8 * factor as u128
    }

    /// Draws one delivery attempt per peer and reports whether the state
    /// propagated. The draws are random, so the outcome is pinned down
    /// only at the extremes: no churn with enough peers always succeeds,
    /// and total churn always fails.
    pub fn propagate_state(&self, state: &State, peers: &Vec<String>, churn: u64) -> (r: bool)
        requires
            churn <= 1000,
        ensures
            churn == 0 && peers@.len() >= spec_required_factor(0) ==> r,
            churn == 1000 ==> !r,
            exists|draws: Seq<u64>|
                {
                    &&& draws.len() == peers@.len()
                    &&& (forall|i: int| 0 <= i < draws.len() ==> draws[i] < 1000)
                    &&& r == spec_propagation_succeeds(
                        spec_success_count(draws, churn),
                        churn as nat,
                    )
                },
    {
        let mut draws: Vec<u64> = Vec::new();
        let mut i: usize = 0;
        while i < peers.len()
            invariant
                draws@.len() == i,
                i <= peers@.len(),
                forall|j: int| 0 <= j < draws@.len() ==> draws@[j] < 1000,
            decreases peers@.len() - i,
        {
            draws.push(random_millis());
            i = i + 1;
        }
        let r = self.propagate_with_draws(state, peers, churn, &draws);
        proof {
            if churn == 0 {
                lemma_count_no_churn(draws@);
            }
            if churn == 1000 {
                lemma_count_total_churn(draws@, churn);
            }
            assert(draws@.len() == peers@.len() && (forall|i: int|
                0 <= i < draws@.len() ==> draws@[i] < 1000) && r == spec_propagation_succeeds(
                spec_success_count(draws@, churn),
                churn as nat,
            ));
        }
        r
    }
}

} // verus!
