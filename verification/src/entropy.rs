//! The entropy engine: a bounded history of state samples and the
//! smoothed, clamped control signal derived from it.
//!
//! The signal is a fixed-point "fractal dimension" in thousandths: the raw
//! transform `log2(history length) * entropy / 100000`, averaged together
//! with the same transform applied to the last ten history entries, then
//! clamped to `[1.0, 10.0]` (that is, `[1000, 10000]` in thousandths).
//! Smoothing keeps the signal from oscillating on single-cycle spikes;
//! clamping bounds every consumer's behaviour regardless of input size.

use vstd::prelude::*;
use vstd::string::StringExecFns;
use crate::numfmt::{spec_ilog2, spec_digits, ilog2_u64, u64_to_string, lemma_mul_le};
use crate::ring::RingBuffer;

verus! {

/// How many samples the history ring holds before evicting the oldest.
pub const HISTORY_CAPACITY: usize = 1000;

/// How many recent samples the smoothing window covers.
pub const SMOOTHING_WINDOW: usize = 10;

/// One state-vector snapshot, appended once per sync cycle.
#[derive(Clone, Copy, Debug, PartialEq, Eq, Structural)]
pub struct EntropySample {
    pub primary: u64,
    pub secondary: u64,
    pub tertiary: u64,
    pub active_nodes: u64,
}

/// The primary components of a history, oldest first.
pub open spec fn primaries(h: Seq<EntropySample>) -> Seq<u64> {
    Seq::new(h.len(), |i: int| h[i].primary)
}

/// The raw fixed-point transform of one entropy value against a history
/// of `len` samples, in thousandths: `ilog2(max(len, 1)) * entropy / 100`.
pub open spec fn raw_dim_milli(len: nat, entropy: nat) -> nat {
    spec_ilog2(if len == 0 { 1 } else { len }) * entropy / 100
}

/// The sum of the raw transform over the `k` most recent primaries of
/// `p`, each transformed against the full history length `full_len`.
pub open spec fn sum_last(p: Seq<u64>, full_len: nat, k: nat) -> nat
    decreases k,
{
    if k == 0 || k > p.len() {
        0
    } else {
        sum_last(p, full_len, (k - 1) as nat) + raw_dim_milli(full_len, p[p.len() - k] as nat)
    }
}

/// Clamps a thousandths value to `[1.0, 10.0]`.
pub open spec fn clamp_milli(x: nat) -> nat {
    if x < 1000 {
        1000
    } else if x > 10000 {
        10000
    } else {
        x
    }
}

/// The smoothed, clamped entropy signal in thousandths: the raw transform
/// averaged with the transform of the last ten history entries. With no
/// history at hand the raw value alone is clamped.
pub open spec fn spec_fractal_dim_milli(p: Option<Seq<u64>>, entropy: nat) -> nat {
    match p {
        Option::None => clamp_milli(raw_dim_milli(1, entropy)),
        Option::Some(p) => {
            let w = if p.len() < SMOOTHING_WINDOW as nat { p.len() } else { SMOOTHING_WINDOW as nat };
            clamp_milli((sum_last(p, p.len(), w) + raw_dim_milli(p.len(), entropy)) / (w + 1))
        },
    }
}

/// The entropy signal is always within `[1.0, 10.0]` in thousandths,
/// whatever the history and however large the raw entropy value.
pub proof fn lemma_signal_clamped(p: Option<Seq<u64>>, entropy: nat)
    ensures
        1000 <= spec_fractal_dim_milli(p, entropy) <= 10000,
{
}

/// The history view of an optional ring of samples.
pub open spec fn history_view(h: Option<&RingBuffer<EntropySample>>) -> Option<Seq<u64>> {
    match h {
        Option::None => Option::None,
        Option::Some(r) => Option::Some(primaries(r@)),
    }
}

/// Computes the smoothed, clamped entropy signal from the history.
pub fn fractal_dim_milli(history: Option<&RingBuffer<EntropySample>>, entropy: u64) -> (r: u64)
    ensures
        r == spec_fractal_dim_milli(history_view(history), entropy as nat),
        1000 <= r <= 10000,
{
    match history {
        None => {
            proof {
                assert(spec_ilog2(1nat) == 0);
            }
            1000
        },
        Some(h) => {
            let ghost p = primaries(h@);
            let len = h.len();
            let log = ilog2_u64(if len == 0 { 1 } else { len as u64 });
            proof {
                lemma_mul_le(log as int, entropy as int, 63, u64::MAX as int);
            }
            let raw: u128 = (log as u128) * (entropy as u128) / 100;
            proof {
                assert(raw == raw_dim_milli(len as nat, entropy as nat));
            }
            let w = if len < SMOOTHING_WINDOW { len } else { SMOOTHING_WINDOW };
            let mut sum: u128 = 0;
            let mut i: usize = 0;
            while i < w
                invariant
                    w <= len,
                    len == h@.len(),
                    i <= w,
                    w <= SMOOTHING_WINDOW,
                    p == primaries(h@),
                    sum == sum_last(p, len as nat, i as nat),
                    sum <= i * 0x40_0000_0000_0000_0000u128,
                decreases w - i,
            {
                let idx = len - 1 - i;
                let sample = h.get(idx);
                let slog = ilog2_u64(if len == 0 { 1 } else { len as u64 });
                proof {
                    lemma_mul_le(slog as int, sample.primary as int, 63, u64::MAX as int);
                }
                let term: u128 = (slog as u128) * (sample.primary as u128) / 100;
                proof {
                    assert(p[p.len() - (i + 1)] == h@[idx as int].primary);
                    assert(term == raw_dim_milli(len as nat, p[p.len() - (i + 1)] as nat));
                    assert(term <= 0x40_0000_0000_0000_0000u128);
                }
                sum = sum + term;
                i = i + 1;
            }
            let avg: u128 = (sum + raw) / ((w + 1) as u128);
            let r: u64 = if avg < 1000 {
                1000
            } else if avg > 10000 {
                10000
            } else {
                avg as u64
            };
            proof {
                assert(r == spec_fractal_dim_milli(Option::Some(p), entropy as nat));
            }
            r
        },
    }
}

/// The entropy metric read each cycle: the component sum of the newest
/// sample scaled by the base-2 log of the active-node count, saturating
/// at the largest representable value.
pub open spec fn spec_cosmic_entropy(last: Option<EntropySample>, active: nat) -> int {
    let sum: int = match last {
        Option::None => 0,
        Option::Some(s) => s.primary + s.secondary + s.tertiary + s.active_nodes,
    };
    let a1: nat = if active + 1 > u64::MAX { u64::MAX as nat } else { (active + 1) as nat };
    let v: int = sum * spec_ilog2(a1);
    if v > u64::MAX {
        u64::MAX as int
    } else {
        v
    }
}

/// The per-cycle entropy metric over the current history.
pub struct CosmicEntropy;

impl CosmicEntropy {
    /// Computes the raw entropy metric from the newest history sample and
    /// the current active-node count.
    pub fn calculate(last: Option<&EntropySample>, active_nodes: u64) -> (r: u64)
        ensures
            r == spec_cosmic_entropy(
                match last {
                    Option::None => Option::<EntropySample>::None,
                    Option::Some(s) => Option::Some(*s),
                },
                active_nodes as nat,
            ),
    {
        let sum: u128 = match last {
            None => 0,
            Some(s) => s.primary as u128 + s.secondary as u128 + s.tertiary as u128
                + s.active_nodes as u128,
        };
        let a1: u64 = if active_nodes == u64::MAX { u64::MAX } else { active_nodes + 1 };
        let log = ilog2_u64(a1);
        proof {
            lemma_mul_le(sum as int, log as int, 4 * (u64::MAX as int), 63);
        }
        let v: u128 = sum * (log as u128);
        if v > u64::MAX as u128 {
            u64::MAX
        } else {
            v as u64
        }
    }
}

/// The body of a reflection message after its fixed head: the scale, the
/// recursion depth, the entropy value and the smoothed signal.
pub open spec fn spec_reflect_tail(scale: Seq<char>, depth: nat, entropy: nat, dim: nat) -> Seq<
    char,
> {
    scale + (": depth "@ + (spec_digits(depth) + (", entropy "@ + (spec_digits(entropy) + (
    ", fractalDim "@ + spec_digits(dim))))))
}

/// The reflection message: what the resolver prefixes to every response,
/// naming the scale, the recursion depth, the entropy value and the
/// smoothed signal.
pub open spec fn spec_reflect_msg(scale: Seq<char>, depth: nat, entropy: nat, dim: nat) -> Seq<char> {
    "Recursion at scale "@ + spec_reflect_tail(scale, depth, entropy, dim)
}

/// Renders reflection messages from the current history.
pub struct RecursionMirror;

impl RecursionMirror {
    /// Builds the reflection line for the given scale, depth and entropy,
    /// deriving the smoothed signal from the history.
    pub fn reflect(
        depth: usize,
        entropy: u64,
        scale: &str,
        chaos_history: Option<&RingBuffer<EntropySample>>,
    ) -> (r: String)
        ensures
            r@ == spec_reflect_msg(
                scale@,
                depth as nat,
                entropy as nat,
                spec_fractal_dim_milli(history_view(chaos_history), entropy as nat),
            ),
    {
        let dim = fractal_dim_milli(chaos_history, entropy);
        let mut s = String::from_str("Recursion at scale ");
        s.append(scale);
        s.append(": depth ");
        s.append(u64_to_string(depth as u64).as_str());
        s.append(", entropy ");
        s.append(u64_to_string(entropy).as_str());
        s.append(", fractalDim ");
        s.append(u64_to_string(dim).as_str());
        proof {
            assert(s@ =~= spec_reflect_msg(
                scale@,
                depth as nat,
                entropy as nat,
                spec_fractal_dim_milli(history_view(chaos_history), entropy as nat),
            ));
        }
        s
    }
}

} // verus!
