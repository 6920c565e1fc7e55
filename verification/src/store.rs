//! The sharded replica store: encrypted payloads routed by content hash
//! into a fixed array of bounded buckets, plus a local keyed table with
//! latest-write-wins lookup and a monotonic bandwidth counter.
//!
//! A full bucket drops the incoming item and keeps what it holds: the
//! oldest entries are preserved and the newest are silently discarded.
//! This is deliberate, not LRU eviction.

use vstd::prelude::*;
use vstd::utf8::encode_utf8;
use vstd::string::{StringExecFns, StringSliceAdditionalSpecFns};
use crate::trusted::{sha256_of, sha256_bytes};

verus! {

/// How many buckets the store shards across.
pub const BUCKET_COUNT: usize = 160;

/// How many payloads one bucket holds before dropping new arrivals.
pub const BUCKET_CAPACITY: usize = 50;

/// The bucket a content id routes to: the first byte of its SHA-256
/// digest, reduced modulo the bucket count. A pure function of the id
/// bytes, so the same id always routes to the same bucket.
pub open spec fn spec_bucket_index(cid_bytes: Seq<u8>) -> int {
    sha256_of(cid_bytes)[0] as int % (BUCKET_COUNT as int)
}

/// Routing is deterministic: equal content ids land in equal buckets.
pub proof fn lemma_routing_deterministic(a: Seq<u8>, b: Seq<u8>)
    requires
        a == b,
    ensures
        spec_bucket_index(a) == spec_bucket_index(b),
{
}

/// What appending one payload leaves in a bucket: a push while there is
/// room, the bucket unchanged once it is full.
pub open spec fn spec_bucket_insert(bucket: Seq<String>, item: String) -> Seq<String> {
    if bucket.len() < BUCKET_CAPACITY as nat {
        bucket.push(item)
    } else {
        bucket
    }
}

/// A full bucket ignores insertions: the length never passes the
/// capacity, what a bucket holds is never displaced, and an insertion
/// into a full bucket drops the new item.
pub proof fn lemma_bucket_capacity(bucket: Seq<String>, item: String)
    requires
        bucket.len() <= BUCKET_CAPACITY as nat,
    ensures
        spec_bucket_insert(bucket, item).len() <= BUCKET_CAPACITY as nat,
        forall|i: int| 0 <= i < bucket.len() ==> spec_bucket_insert(bucket, item)[i] == bucket[i],
        bucket.len() == BUCKET_CAPACITY as nat ==> spec_bucket_insert(bucket, item) == bucket,
{
}

/// Latest-write-wins lookup in the keyed journal: the value of the most
/// recent entry for `key`, if any.
pub open spec fn spec_lookup(t: Seq<(String, String)>, key: Seq<char>) -> Option<Seq<char>>
    decreases t.len(),
{
    if t.len() == 0 {
        Option::None
    } else if t.last().0@ == key {
        Option::Some(t.last().1@)
    } else {
        spec_lookup(t.drop_last(), key)
    }
}

/// The UTF-8 byte length of a string value, the unit the bandwidth
/// counter accounts in.
pub open spec fn spec_byte_len(s: Seq<char>) -> nat {
    encode_utf8(s).len()
}

/// Routes a content id to its bucket.
pub fn shard_route(cid: &str) -> (r: usize)
    ensures
        r == spec_bucket_index(cid.spec_bytes()),
        r < BUCKET_COUNT,
{
    let digest = sha256_bytes(cid.as_bytes());
    (digest[0] as usize) % BUCKET_COUNT
}

/// The sharded replica store of one node.
pub struct ReplicaStore {
    buckets: Vec<Vec<String>>,
    local: Vec<(String, String)>,
    bandwidth_used: u64,
}

impl ReplicaStore {
    /// The bucket contents, bucket by bucket.
    pub closed spec fn buckets_view(&self) -> Seq<Seq<String>> {
        Seq::new(self.buckets@.len(), |i: int| self.buckets@[i]@)
    }

    /// The keyed journal, oldest entry first.
    pub closed spec fn journal(&self) -> Seq<(String, String)> {
        self.local@
    }

    /// The monotonic byte counter of everything sharded and persisted.
    pub closed spec fn bandwidth(&self) -> u64 {
        self.bandwidth_used
    }

    pub open spec fn wf(&self) -> bool {
        &&& self.buckets_view().len() == BUCKET_COUNT as nat
        &&& forall|i: int|
            0 <= i < BUCKET_COUNT as int ==> #[trigger] self.buckets_view()[i].len()
                <= BUCKET_CAPACITY as nat
    }

    pub fn new() -> (r: Self)
        ensures
            r.wf(),
            r.journal() == Seq::<(String, String)>::empty(),
            r.bandwidth() == 0,
            forall|i: int|
                0 <= i < BUCKET_COUNT as int ==> #[trigger] r.buckets_view()[i]
                    == Seq::<String>::empty(),
    {
        let mut buckets: Vec<Vec<String>> = Vec::new();
        let mut i: usize = 0;
        while i < BUCKET_COUNT
            invariant
                i <= BUCKET_COUNT,
                buckets@.len() == i,
                forall|j: int| 0 <= j < i ==> #[trigger] buckets@[j]@ == Seq::<String>::empty(),
            decreases BUCKET_COUNT - i,
        {
            buckets.push(Vec::new());
            i = i + 1;
        }
        ReplicaStore { buckets, local: Vec::new(), bandwidth_used: 0 }
    }

    /// Routes the payload to its bucket and appends it there, subject to
    /// the bucket capacity; a full bucket silently drops the payload.
    /// Accounts the payload size against the bandwidth counter either
    /// way.
    pub fn shard(&mut self, cid: &str, encrypted: String)
        requires
            old(self).wf(),
        ensures
            final(self).wf(),
            ({
                let idx = spec_bucket_index(cid.spec_bytes());
                &&& final(self).buckets_view() == old(self).buckets_view().update(
                    idx,
                    spec_bucket_insert(old(self).buckets_view()[idx], encrypted),
                )
                &&& final(self).journal() == old(self).journal()
                &&& final(self).bandwidth() == if old(self).bandwidth()
                    + spec_byte_len(encrypted@) <= u64::MAX {
                    old(self).bandwidth() + spec_byte_len(encrypted@)
                } else {
                    u64::MAX as int
                }
            }),
    {
        let idx = shard_route(cid);
        let blen = self.buckets[idx].len();
        let elen = encrypted.as_str().as_bytes().len();
        if blen < BUCKET_CAPACITY {
            self.buckets[idx].push(encrypted);
        }
        if self.bandwidth_used <= u64::MAX - (elen as u64) {
            self.bandwidth_used = self.bandwidth_used + elen as u64;
        } else {
            self.bandwidth_used = u64::MAX;
        }
        proof {
            assert(final(self).buckets_view() =~= old(self).buckets_view().update(
                spec_bucket_index(cid.spec_bytes()),
                spec_bucket_insert(
                    old(self).buckets_view()[spec_bucket_index(cid.spec_bytes())],
                    encrypted,
                ),
            ));
        }
    }

    /// Persists a payload in the local keyed journal: the latest write
    /// for a given id wins, and every other id keeps its value. Accounts
    /// the payload size against the bandwidth counter.
    pub fn persist(&mut self, cid: String, encrypted: String)
        requires
            old(self).wf(),
        ensures
            final(self).wf(),
            final(self).buckets_view() == old(self).buckets_view(),
            spec_lookup(final(self).journal(), cid@) == Option::Some(encrypted@),
            forall|k: Seq<char>|
                k != cid@ ==> #[trigger] spec_lookup(final(self).journal(), k) == spec_lookup(
                    old(self).journal(),
                    k,
                ),
            final(self).bandwidth() == if old(self).bandwidth() + spec_byte_len(encrypted@)
                <= u64::MAX {
                old(self).bandwidth() + spec_byte_len(encrypted@)
            } else {
                u64::MAX as int
            },
    {
        let elen = encrypted.as_str().as_bytes().len();
        self.local.push((cid, encrypted));
        if self.bandwidth_used <= u64::MAX - (elen as u64) {
            self.bandwidth_used = self.bandwidth_used + elen as u64;
        } else {
            self.bandwidth_used = u64::MAX;
        }
        proof {
            assert(final(self).buckets_view() =~= old(self).buckets_view());
            assert(forall|k: Seq<char>|
                k != final(self).local@.last().0@ ==> #[trigger] spec_lookup(
                    final(self).journal(),
                    k,
                ) == spec_lookup(final(self).journal().drop_last(), k));
            assert(final(self).journal().drop_last() =~= old(self).journal());
        }
    }

    /// Returns the locally persisted payload for `cid`, if any: the
    /// latest write for that id.
    pub fn load(&self, cid: &str) -> (r: Option<&String>)
        ensures
            match r {
                Option::Some(v) => spec_lookup(self.journal(), cid@) == Option::Some(v@),
                Option::None => spec_lookup(self.journal(), cid@) == Option::<Seq<char>>::None,
            },
    {
        let key = String::from_str(cid);
        let mut i: usize = self.local.len();
        proof {
            assert(self.journal().take(self.local@.len() as int) =~= self.journal());
        }
        while i > 0
            invariant
                key@ == cid@,
                i <= self.local@.len(),
                spec_lookup(self.journal(), cid@) == spec_lookup(
                    self.journal().take(i as int),
                    cid@,
                ),
            decreases i,
        {
            i = i - 1;
            proof {
                assert(self.journal().take(i + 1).drop_last() =~= self.journal().take(i as int));
                assert(self.journal().take(i + 1).last() == self.journal()[i as int]);
            }
            let hit = self.local[i].0 == key;
            proof {
                assert(key@ == cid@);
                assert(hit == (self.journal()[i as int].0@ == cid@));
                if hit {
                    assert(spec_lookup(self.journal().take(i + 1), cid@)
                        == Option::Some(self.journal()[i as int].1@));
                } else {
                    assert(spec_lookup(self.journal().take(i + 1), cid@)
                        == spec_lookup(self.journal().take(i as int), cid@));
                }
            }
            if hit {
                return Some(&self.local[i].1);
            }
        }
        None
    }

    /// How many payloads one bucket currently holds.
    pub fn bucket_len(&self, idx: usize) -> (r: usize)
        requires
            self.wf(),
            idx < BUCKET_COUNT,
        ensures
            r == self.buckets_view()[idx as int].len(),
    {
        self.buckets[idx].len()
    }

    /// One payload of one bucket.
    pub fn bucket_item(&self, idx: usize, i: usize) -> (r: &String)
        requires
            self.wf(),
            idx < BUCKET_COUNT,
            i < self.buckets_view()[idx as int].len(),
        ensures
            *r == self.buckets_view()[idx as int][i as int],
    {
        &self.buckets[idx][i]
    }

    /// The monotonic bandwidth counter.
    pub fn bandwidth_used(&self) -> (r: u64)
        ensures
            r == self.bandwidth(),
    {
        self.bandwidth_used
    }
}

} // verus!
