//! The node orchestrator: owns the peer registry, the entropy history,
//! the replica store and the counters, and runs one synchronization cycle
//! at a time.
//!
//! Anything that needs a clock or a random draw comes in as an argument
//! of the deterministic core functions; thin shells obtain those values
//! and say only what holds of every outcome. Durable mirroring of
//! persisted records is left to the caller, which drains the outbox.

use vstd::prelude::*;
use vstd::string::{StringExecFns, StringSliceAdditionalSpecFns};
use vstd::utf8::encode_utf8;
use vstd::bytes::{spec_u64_to_le_bytes, u64_to_le_bytes};
use crate::entropy::{
    CosmicEntropy, EntropySample, RecursionMirror, spec_cosmic_entropy, spec_reflect_msg,
    spec_fractal_dim_milli, primaries, HISTORY_CAPACITY,
};
use crate::gossip::{State, CosmicGossipProtocol, spec_required_factor};
use crate::numfmt::{spec_digits, u64_to_string, lemma_mul_le};
use crate::peers::{spec_take_excl, PeerDiscovery, SAMPLE_CAP};
use crate::ring::{RingBuffer, ring_append};
use crate::store::{ReplicaStore, spec_lookup, BUCKET_COUNT};
use crate::trusted::{sha256_of, base64_of, sha256_bytes, base64_string, random_millis, now_unix_seconds};

verus! {

/// Startup configuration, loaded once and immutable thereafter.
#[derive(Clone)]
pub struct Config {
    pub peer_id: String,
    pub redis_host: String,
    pub redis_port: u16,
    pub storj_bucket: String,
    pub storj_access_token: String,
    pub arweave_wallet_key: String,
    pub signaling_server: String,
    pub max_states: usize,
    pub max_total_states: usize,
    pub replication_factor: usize,
    pub query_semaphore_limit: usize,
}

/// How many peers one sync cycle gossips to at most: the bandwidth cap
/// divided by the per-state size.
pub const SYNC_PEER_CAP: usize = 10_000;

/// The chaos value above which an orbit always fires.
pub const ORBIT_CHAOS_THRESHOLD: u64 = 40_000;

/// The ceiling the primary chaos value saturates at.
pub const ORBIT_CHAOS_CEILING: u64 = 50_000;

/// The admission limiter never shrinks below this many slots.
pub const ADMISSION_FLOOR: u64 = 500;

/// The canonical framing of a record before encryption: the entropy
/// value, the data and the creation time, separated by bars.
pub open spec fn spec_frame(entropy: nat, data: Seq<char>, ts: nat) -> Seq<char> {
    spec_digits(entropy) + "|"@ + data + "|"@ + spec_digits(ts)
}

/// The opaque encryption of a framed record: base64 of its SHA-256
/// digest.
pub open spec fn spec_encrypt(entropy: nat, data: Seq<char>, ts: nat) -> Seq<char> {
    base64_of(sha256_of(encode_utf8(spec_frame(entropy, data, ts))))
}

/// The key derived for a peer: the SHA-256 digest of the peer id bytes
/// followed by the little-endian entropy and nonce.
pub open spec fn spec_derive_key(peer_id: Seq<char>, entropy: u64, nonce: u64) -> Seq<u8> {
    sha256_of(encode_utf8(peer_id) + spec_u64_to_le_bytes(entropy) + spec_u64_to_le_bytes(nonce))
}

/// Whether a chaos orbit fires: the last chaos value is already high, or
/// the trigger draw lands under the bandwidth-adjusted probability (one
/// tenth normally, one hundredth under bandwidth pressure; draws are in
/// thousandths).
pub open spec fn spec_orbit_trigger(last_primary: u64, bandwidth: u64, trigger_draw: u64) -> bool {
    last_primary > ORBIT_CHAOS_THRESHOLD || trigger_draw < (if bandwidth > 100_000_000 {
        10u64
    } else {
        100u64
    })
}

/// The next primary chaos value: jittered by a factor between 0.9 and 1.1
/// (in thousandths) and saturated at the ceiling.
pub open spec fn spec_orbit_cv0(cv0: u64, jitter_draw: u64) -> int {
    let scaled = cv0 * (900 + jitter_draw / 5) / 1000;
    if scaled > ORBIT_CHAOS_CEILING {
        ORBIT_CHAOS_CEILING as int
    } else {
        scaled
    }
}

/// The next nonce, wrapping at the top.
pub open spec fn spec_next_nonce(n: u64) -> u64 {
    if n == u64::MAX {
        0
    } else {
        (n + 1) as u64
    }
}

/// How many queries may run at once: one slot per thousand active nodes,
/// never below the floor.
pub fn admission_limit(active_nodes: u64) -> (r: u64)
    ensures
        r == if active_nodes / 1000 > ADMISSION_FLOOR {
            (active_nodes / 1000) as int
        } else {
            ADMISSION_FLOOR as int
        },
{
    let by_nodes = active_nodes / 1000;
    if by_nodes > ADMISSION_FLOOR {
        by_nodes
    } else {
        ADMISSION_FLOOR
    }
}

/// Seconds since the Unix epoch, zero for a pre-epoch clock.
pub fn now_seconds() -> u64 {
    now_unix_seconds()
}

/// The swarm node: peer registry, entropy history, replica store and the
/// per-cycle counters.
pub struct SelfEvolvingFractalGossipNode {
    pub config: Config,
    pub peers: PeerDiscovery,
    pub store: ReplicaStore,
    pub entropy: u64,
    pub active_nodes: u64,
    pub c_vector: Vec<u64>,
    pub chaos_history: RingBuffer<EntropySample>,
    pub nonce: u64,
    pub outbox: Vec<State>,
}

impl SelfEvolvingFractalGossipNode {
    pub open spec fn spec_entropy(&self) -> u64 {
        self.entropy
    }

    pub open spec fn spec_active_nodes(&self) -> u64 {
        self.active_nodes
    }

    pub open spec fn spec_cv(&self) -> Seq<u64> {
        self.c_vector@
    }

    pub open spec fn spec_history(&self) -> Seq<EntropySample> {
        self.chaos_history@
    }

    pub open spec fn spec_history_cap(&self) -> nat {
        self.chaos_history.cap()
    }

    pub open spec fn spec_nonce(&self) -> u64 {
        self.nonce
    }

    pub open spec fn spec_outbox(&self) -> Seq<State> {
        self.outbox@
    }

    pub open spec fn wf(&self) -> bool {
        &&& self.spec_cv().len() == 3
        &&& self.chaos_history.wf()
        &&& self.spec_history_cap() == HISTORY_CAPACITY as nat
        &&& self.store.wf()
    }

    /// A fresh node: no history, no entropy, the synthetic hundred
    /// billion node estimate, and its own id registered in the local
    /// peer pool.
    pub fn new(config: Config) -> (r: Self)
        ensures
            r.wf(),
            r.spec_entropy() == 0,
            r.spec_active_nodes() == 100_000_000_000u64,
            r.spec_history() == Seq::<EntropySample>::empty(),
            r.spec_nonce() == 0,
            r.spec_outbox() == Seq::<State>::empty(),
            r.spec_cv() == seq![0u64, 0u64, 0u64],
            r.peers.locals().len() == 1 && r.peers.locals()[0]@ == r.config.peer_id@,
            r.peers.globals() == Seq::<String>::empty(),
            r.store.journal() == Seq::<(String, String)>::empty(),
            r.store.bandwidth() == 0,
            forall|i: int|
                0 <= i < BUCKET_COUNT as int ==> #[trigger] r.store.buckets_view()[i]
                    == Seq::<String>::empty(),
            r.config == config,
    {
        let own_id = config.peer_id.clone();
        let mut peers = PeerDiscovery::new();
        peers.register_node(own_id);
        let mut c_vector: Vec<u64> = Vec::new();
        c_vector.push(0);
        c_vector.push(0);
        c_vector.push(0);
        proof {
            assert(c_vector@ =~= seq![0u64, 0u64, 0u64]);
        }
        SelfEvolvingFractalGossipNode {
            config,
            peers,
            store: ReplicaStore::new(),
            entropy: 0,
            active_nodes: 100_000_000_000,
            c_vector,
            chaos_history: RingBuffer::new(HISTORY_CAPACITY),
            nonce: 0,
            outbox: Vec::new(),
        }
    }

    pub fn entropy(&self) -> (r: u64)
        ensures
            r == self.spec_entropy(),
    {
        self.entropy
    }

    pub fn active_nodes(&self) -> (r: u64)
        ensures
            r == self.spec_active_nodes(),
    {
        self.active_nodes
    }

    pub fn nonce(&self) -> (r: u64)
        ensures
            r == self.spec_nonce(),
    {
        self.nonce
    }

    pub fn history_len(&self) -> (r: usize)
        ensures
            r == self.spec_history().len(),
    {
        self.chaos_history.len()
    }

    /// A borrow of the history ring, for deriving the current signal.
    pub fn history(&self) -> (r: &RingBuffer<EntropySample>)
        ensures
            r@ == self.spec_history(),
            r.wf() == self.chaos_history.wf(),
            r.cap() == self.spec_history_cap(),
    {
        &self.chaos_history
    }

    /// Hands over the records persisted since the last call, for durable
    /// mirroring; the outbox is left empty.
    pub fn take_outbox(&mut self) -> (r: Vec<State>)
        ensures
            r@ == old(self).spec_outbox(),
            final(self).spec_outbox() == Seq::<State>::empty(),
            final(self).config == old(self).config,
            final(self).peers == old(self).peers,
            final(self).store == old(self).store,
            final(self).spec_entropy() == old(self).spec_entropy(),
            final(self).spec_active_nodes() == old(self).spec_active_nodes(),
            final(self).spec_cv() == old(self).spec_cv(),
            final(self).spec_history() == old(self).spec_history(),
            final(self).spec_history_cap() == old(self).spec_history_cap(),
            final(self).spec_nonce() == old(self).spec_nonce(),
    {
        let mut r: Vec<State> = Vec::new();
        core::mem::swap(&mut r, &mut self.outbox);
        r
    }

    /// Encrypts a framed record: base64 of the SHA-256 digest of the
    /// canonical frame.
    pub fn encrypt_state(&self, entropy: u64, data: &str, created_at: u64) -> (r: String)
        ensures
            r@ == spec_encrypt(entropy as nat, data@, created_at as nat),
    {
        let mut s = u64_to_string(entropy);
        s.append("|");
        s.append(data);
        s.append("|");
        s.append(u64_to_string(created_at).as_str());
        let digest = sha256_bytes(s.as_str().as_bytes());
        base64_string(digest.as_slice())
    }

    /// Derives a per-peer key from the peer id, the entropy and a nonce.
    pub fn derive_key(&self, entropy: u64, nonce: u64) -> (r: Vec<u8>)
        ensures
            r@ == spec_derive_key(self.config.peer_id@, entropy, nonce),
            r@.len() == 32,
    {
        let mut buf: Vec<u8> = Vec::new();
        buf.extend_from_slice(self.config.peer_id.as_str().as_bytes());
        let mut e = u64_to_le_bytes(entropy);
        buf.append(&mut e);
        let mut n = u64_to_le_bytes(nonce);
        buf.append(&mut n);
        proof {
            assert(buf@ =~= encode_utf8(self.config.peer_id@) + spec_u64_to_le_bytes(entropy)
                + spec_u64_to_le_bytes(nonce));
        }
        sha256_bytes(buf.as_slice())
    }

    /// The gossip sample for this node: up to `min(active_nodes / 2, 500)`
    /// local peers other than this node, followed by as many global peers
    /// under the same cap; never containing the node itself.
    pub fn get_peers(&self) -> (r: Vec<String>)
        ensures
            ({
                let quota = if self.spec_active_nodes() / 2 < SAMPLE_CAP {
                    self.spec_active_nodes() / 2
                } else {
                    SAMPLE_CAP
                };
                &&& r@ == spec_take_excl(self.peers.locals(), self.config.peer_id@, quota as nat)
                    + spec_take_excl(self.peers.globals(), self.config.peer_id@, quota as nat)
                &&& forall|i: int| 0 <= i < r@.len() ==> r@[i]@ != self.config.peer_id@
            }),
    {
        self.peers.get_peers(self.config.peer_id.as_str(), self.active_nodes)
    }

    /// The deterministic core of a chaos orbit. When the trigger fires,
    /// the primary chaos value is jittered and capped, a fresh record is
    /// encrypted, persisted and sharded, the history gains a sample, and
    /// the reflection line is returned; otherwise nothing changes.
    pub fn chaos_orbit_with_draws(
        &mut self,
        trigger_draw: u64,
        jitter_draw: u64,
        now_ts: u64,
    ) -> (r: Option<String>)
        requires
            old(self).wf(),
            trigger_draw < 1000,
            jitter_draw < 1000,
        ensures
            final(self).wf(),
            final(self).spec_entropy() == old(self).spec_entropy(),
            final(self).spec_active_nodes() == old(self).spec_active_nodes(),
            final(self).config == old(self).config,
            final(self).peers == old(self).peers,
            ({
                let last = if old(self).spec_history().len() == 0 {
                    0u64
                } else {
                    old(self).spec_history().last().primary
                };
                let fired = spec_orbit_trigger(last, old(self).store.bandwidth(), trigger_draw);
                let cv0 = spec_orbit_cv0(old(self).spec_cv()[0], jitter_draw) as u64;
                let sample = EntropySample {
                    primary: cv0,
                    secondary: old(self).spec_cv()[1],
                    tertiary: old(self).spec_cv()[2],
                    active_nodes: old(self).spec_active_nodes(),
                };
                let cid = "chaos_"@ + spec_digits(old(self).spec_nonce() as nat);
                let enc = spec_encrypt(cv0 as nat, "orbit"@, now_ts as nat);
                if fired {
                    &&& final(self).spec_cv() == old(self).spec_cv().update(0, cv0)
                    &&& final(self).spec_history() == ring_append(
                        old(self).spec_history(),
                        old(self).spec_history_cap(),
                        sample,
                    )
                    &&& final(self).spec_nonce() == spec_next_nonce(old(self).spec_nonce())
                    &&& spec_lookup(final(self).store.journal(), cid) == Option::Some(enc)
                    &&& final(self).spec_outbox().len() == old(self).spec_outbox().len() + 1
                    &&& final(self).spec_outbox().last().cid@ == cid
                    &&& final(self).spec_outbox().last().encrypted@ == enc
                    &&& r matches Option::Some(msg) && msg@ == spec_reflect_msg(
                        "meso"@,
                        final(self).spec_history().len(),
                        cv0 as nat,
                        spec_fractal_dim_milli(
                            Option::Some(primaries(final(self).spec_history())),
                            cv0 as nat,
                        ),
                    )
                } else {
                    *final(self) == *old(self) && r is None
                }
            }),
    {
        let last_chaos: u64 = match self.chaos_history.get_latest() {
            Some(s) => s.primary,
            None => 0,
        };
        let bw = self.store.bandwidth_used();
        let threshold: u64 = if bw > 100_000_000 {
            10
        } else {
            100
        };
        if !(last_chaos > ORBIT_CHAOS_THRESHOLD || trigger_draw < threshold) {
            return None;
        }
        proof {
            lemma_mul_le(old(self).c_vector@[0] as int, (900 + jitter_draw / 5) as int,
                u64::MAX as int, 1100);
        }
        let scaled_u128: u128 = (self.c_vector[0] as u128) * ((900 + jitter_draw / 5) as u128)
            / 1000;
        let cv0: u64 = if scaled_u128 > ORBIT_CHAOS_CEILING as u128 {
            ORBIT_CHAOS_CEILING
        } else {
            scaled_u128 as u64
        };
        let old_cv1 = self.c_vector[1];
        let old_cv2 = self.c_vector[2];
        self.c_vector.remove(0);
        self.c_vector.insert(0, cv0);
        proof {
            assert(self.c_vector@ =~= old(self).c_vector@.update(0, cv0));
        }
        let encrypted = self.encrypt_state(cv0, "orbit", now_ts);
        let mut cid = String::from_str("chaos_");
        cid.append(u64_to_string(self.nonce).as_str());
        self.nonce = if self.nonce == u64::MAX {
            0
        } else {
            self.nonce + 1
        };
        self.store.persist(cid.clone(), encrypted.clone());
        self.store.shard(cid.as_str(), encrypted.clone());
        self.outbox.push(State { cid, encrypted });
        let sample = EntropySample {
            primary: cv0,
            secondary: old_cv1,
            tertiary: old_cv2,
            active_nodes: self.active_nodes,
        };
        self.chaos_history.append(sample);
        let reflection = RecursionMirror::reflect(
            self.chaos_history.len(),
            cv0,
            "meso",
            Some(&self.chaos_history),
        );
        Some(reflection)
    }

    /// Runs one chaos orbit with fresh draws and the current time. The
    /// draws are random, so only what holds of every outcome is promised;
    /// a high last chaos value fires the orbit whatever the draws.
    pub fn chaos_orbit(&mut self) -> (r: Option<String>)
        requires
            old(self).wf(),
        ensures
            final(self).wf(),
            final(self).spec_entropy() == old(self).spec_entropy(),
            final(self).spec_active_nodes() == old(self).spec_active_nodes(),
            final(self).config == old(self).config,
            final(self).peers == old(self).peers,
            r is None ==> *final(self) == *old(self),
            old(self).spec_history().len() > 0 && old(self).spec_history().last().primary
                > ORBIT_CHAOS_THRESHOLD ==> {
                &&& r is Some
                &&& final(self).spec_nonce() == spec_next_nonce(old(self).spec_nonce())
                &&& final(self).spec_outbox().len() == old(self).spec_outbox().len() + 1
                &&& final(self).spec_history().len() == if old(self).spec_history().len()
                    < old(self).spec_history_cap() {
                    (old(self).spec_history().len() + 1) as int
                } else {
                    old(self).spec_history_cap() as int
                }
            },
    {
        let td = random_millis();
        let jd = random_millis();
        let ts = now_seconds();
        self.chaos_orbit_with_draws(td, jd, ts)
    }

    /// The deterministic core of one propagation: encrypts the current
    /// state, gossips it to the given peers under the given churn, and
    /// persists it locally only on success. Failure changes nothing:
    /// the cycle simply skips persistence.
    pub fn synchronize_with_network(
        &mut self,
        peers: Vec<String>,
        churn: u64,
        now_ts: u64,
    ) -> (r: bool)
        requires
            old(self).wf(),
            churn <= 1000,
        ensures
            final(self).wf(),
            churn == 0 && peers@.len() >= spec_required_factor(0) ==> r,
            churn == 1000 ==> !r,
            !r ==> *final(self) == *old(self),
            r ==> ({
                let cid = "state_"@ + spec_digits(old(self).spec_nonce() as nat);
                let enc = spec_encrypt(
                    old(self).spec_entropy() as nat,
                    "data"@,
                    now_ts as nat,
                );
                &&& spec_lookup(final(self).store.journal(), cid) == Option::Some(enc)
                &&& final(self).spec_active_nodes() == peers@.len()
                &&& final(self).spec_nonce() == spec_next_nonce(old(self).spec_nonce())
                &&& final(self).spec_outbox().len() == old(self).spec_outbox().len() + 1
                &&& final(self).spec_outbox().last().cid@ == cid
                &&& final(self).spec_outbox().last().encrypted@ == enc
                &&& final(self).spec_history() == old(self).spec_history()
                &&& final(self).spec_entropy() == old(self).spec_entropy()
            }),
    {
        let encrypted = self.encrypt_state(self.entropy, "data", now_ts);
        let mut cid = String::from_str("state_");
        cid.append(u64_to_string(self.nonce).as_str());
        let state = State { cid: cid.clone(), encrypted: encrypted.clone() };
        let gossip = CosmicGossipProtocol::new();
        let ok = gossip.propagate_state(&state, &peers, churn);
        if ok {
            self.nonce = if self.nonce == u64::MAX {
                0
            } else {
                self.nonce + 1
            };
            self.store.persist(cid, encrypted);
            self.outbox.push(state);
            self.active_nodes = peers.len() as u64;
        }
        ok
    }

    /// One synchronization cycle: recompute the entropy metric from the
    /// newest sample, append the cycle's sample to the history, draw the
    /// gossip sample and churn, and propagate. Reports whether the cycle
    /// persisted.
    pub fn run_sync_cycle(&mut self, now_ts: u64) -> (r: bool)
        requires
            old(self).wf(),
        ensures
            final(self).wf(),
            final(self).spec_entropy() == spec_cosmic_entropy(
                if old(self).spec_history().len() == 0 {
                    Option::<EntropySample>::None
                } else {
                    Option::Some(old(self).spec_history().last())
                },
                old(self).spec_active_nodes() as nat,
            ),
            final(self).spec_history() == ring_append(
                old(self).spec_history(),
                old(self).spec_history_cap(),
                EntropySample {
                    primary: final(self).spec_entropy(),
                    secondary: 0,
                    tertiary: 0,
                    active_nodes: old(self).spec_active_nodes(),
                },
            ),
            r ==> ({
                let cid = "state_"@ + spec_digits(old(self).spec_nonce() as nat);
                let enc = spec_encrypt(
                    final(self).spec_entropy() as nat,
                    "data"@,
                    now_ts as nat,
                );
                &&& spec_lookup(final(self).store.journal(), cid) == Option::Some(enc)
                &&& final(self).spec_nonce() == spec_next_nonce(old(self).spec_nonce())
            }),
            !r ==> final(self).spec_nonce() == old(self).spec_nonce() && final(self).store
                == old(self).store,
    {
        let e = CosmicEntropy::calculate(self.chaos_history.get_latest(), self.active_nodes);
        self.entropy = e;
        let sample = EntropySample {
            primary: e,
            secondary: 0,
            tertiary: 0,
            active_nodes: self.active_nodes,
        };
        self.chaos_history.append(sample);
        let mut peer_sample = self.peers.get_peers(
            self.config.peer_id.as_str(),
            self.active_nodes,
        );
        if peer_sample.len() > SYNC_PEER_CAP {
            peer_sample.truncate(SYNC_PEER_CAP);
        }
        let churn = random_millis();
        self.synchronize_with_network(peer_sample, churn, now_ts)
    }

    /// The deterministic core of one monitor tick: the active-node count
    /// recovers to its baseline and the history gains a sample carrying
    /// the entropy, the recovered count and the recovery rate (800 plus
    /// a fifth of the draw, in thousandths).
    pub fn monitor_chaos_step(&mut self, recovery_draw: u64)
        requires
            old(self).wf(),
            recovery_draw < 1000,
        ensures
            final(self).wf(),
            final(self).spec_active_nodes() == 1_000_000u64,
            final(self).spec_entropy() == old(self).spec_entropy(),
            final(self).spec_history() == ring_append(
                old(self).spec_history(),
                old(self).spec_history_cap(),
                EntropySample {
                    primary: old(self).spec_entropy(),
                    secondary: 1_000_000,
                    tertiary: (800 + recovery_draw / 5) as u64,
                    active_nodes: 0,
                },
            ),
    {
        self.active_nodes = 1_000_000;
        let sample = EntropySample {
            primary: self.entropy,
            secondary: 1_000_000,
            tertiary: 800 + recovery_draw / 5,
            active_nodes: 0,
        };
        self.chaos_history.append(sample);
    }

    /// One monitor tick with a fresh recovery draw: the active count
    /// recovers to its baseline and the history gains the recovery sample
    /// for whatever rate was drawn.
    pub fn monitor_chaos(&mut self)
        requires
            old(self).wf(),
        ensures
            final(self).wf(),
            final(self).spec_active_nodes() == 1_000_000u64,
            final(self).spec_entropy() == old(self).spec_entropy(),
            exists|d: u64|
                d < 1000 && final(self).spec_history() == #[trigger] ring_append(
                    old(self).spec_history(),
                    old(self).spec_history_cap(),
                    EntropySample {
                        primary: old(self).spec_entropy(),
                        secondary: 1_000_000,
                        tertiary: (800 + d / 5) as u64,
                        active_nodes: 0,
                    },
                ),
    {
        let d = random_millis();
        self.monitor_chaos_step(d);
        proof {
            assert(d < 1000 && final(self).spec_history() == ring_append(
                old(self).spec_history(),
                old(self).spec_history_cap(),
                EntropySample {
                    primary: old(self).spec_entropy(),
                    secondary: 1_000_000,
                    tertiary: (800 + d / 5) as u64,
                    active_nodes: 0,
                },
            ));
        }
    }
}

} // verus!
