//! Verified byte-level text helpers for the query resolver: ASCII
//! lowercasing, substring search and whitespace-delimited token search.

use vstd::prelude::*;

verus! {

/// ASCII lowercasing of one byte.
pub open spec fn spec_lower_byte(b: u8) -> u8 {
    if 65 <= b <= 90 {
        (b + 32) as u8
    } else {
        b
    }
}

/// ASCII lowercasing of a byte string.
pub open spec fn spec_lower(b: Seq<u8>) -> Seq<u8> {
    Seq::new(b.len(), |i: int| spec_lower_byte(b[i]))
}

/// Lowercases the ASCII letters of a byte string.
pub fn lower_bytes(s: &[u8]) -> (r: Vec<u8>)
    ensures
        r@ == spec_lower(s@),
{
    let slen = s.len();
    let mut r: Vec<u8> = Vec::new();
    let mut i: usize = 0;
    while i < slen
        invariant
            slen == s@.len(),
            i <= slen,
            r@ == spec_lower(s@).take(i as int),
        decreases slen - i,
    {
        let b = s[i];
        let lb: u8 = if 65 <= b && b <= 90 {
            b + 32
        } else {
            b
        };
        r.push(lb);
        proof {
            assert(r@ =~= spec_lower(s@).take(i + 1));
        }
        i = i + 1;
    }
    proof {
        assert(spec_lower(s@).take(s@.len() as int) =~= spec_lower(s@));
    }
    r
}

/// Whether `t` occurs in `q` starting at position `i`.
pub open spec fn spec_match_at(q: Seq<u8>, t: Seq<u8>, i: int) -> bool {
    0 <= i && i + t.len() <= q.len() && q.subrange(i, i + t.len()) == t
}

/// Whether `t` occurs anywhere in `q`.
pub open spec fn spec_contains(q: Seq<u8>, t: Seq<u8>) -> bool {
    exists|i: int| spec_match_at(q, t, i)
}

/// An ASCII whitespace byte: space, tab, line feed or carriage return.
pub open spec fn spec_is_space(b: u8) -> bool {
    b == 32 || b == 9 || b == 10 || b == 13
}

/// Whether `t` occurs in `q` as a whole whitespace-delimited token.
pub open spec fn spec_token_at(q: Seq<u8>, t: Seq<u8>, i: int) -> bool {
    spec_match_at(q, t, i) && (i == 0 || spec_is_space(q[i - 1])) && (i + t.len() == q.len()
        || spec_is_space(q[i + t.len()]))
}

/// Whether `t` occurs in `q` as a whitespace-delimited token anywhere.
pub open spec fn spec_has_token(q: Seq<u8>, t: Seq<u8>) -> bool {
    exists|i: int| spec_token_at(q, t, i)
}

fn match_at(q: &[u8], t: &[u8], i: usize) -> (r: bool)
    requires
        i + t@.len() <= q@.len(),
    ensures
        r == spec_match_at(q@, t@, i as int),
{
    let qlen = q.len();
    let tlen = t.len();
    let mut j: usize = 0;
    while j < tlen
        invariant
            qlen == q@.len(),
            tlen == t@.len(),
            i + tlen <= qlen,
            j <= tlen,
            forall|k: int| 0 <= k < j ==> q@[i + k] == t@[k],
        decreases tlen - j,
    {
        if q[i + j] != t[j] {
            proof {
                assert(q@.subrange(i as int, i + t@.len())[j as int] != t@[j as int]);
            }
            return false;
        }
        j = j + 1;
    }
    proof {
        assert(q@.subrange(i as int, i + t@.len()) =~= t@);
    }
    true
}

/// Substring search.
pub fn contains_bytes(q: &[u8], t: &[u8]) -> (r: bool)
    ensures
        r == spec_contains(q@, t@),
{
    let qlen = q.len();
    let tlen = t.len();
    if tlen > qlen {
        proof {
            assert(forall|i: int| !spec_match_at(q@, t@, i));
        }
        return false;
    }
    if tlen == 0 {
        proof {
            assert(q@.subrange(0, 0) =~= t@);
            assert(spec_match_at(q@, t@, 0));
        }
        return true;
    }
    let mut i: usize = 0;
    while i <= qlen - tlen
        invariant
            qlen == q@.len(),
            tlen == t@.len(),
            1 <= tlen <= qlen,
            i <= qlen - tlen + 1,
            forall|k: int| 0 <= k < i ==> !spec_match_at(q@, t@, k),
        decreases qlen - tlen + 1 - i,
    {
        if match_at(q, t, i) {
            return true;
        }
        i = i + 1;
    }
    proof {
        assert(forall|k: int| !spec_match_at(q@, t@, k));
    }
    false
}

/// Token search: the needle must be bounded by whitespace or the ends of
/// the haystack.
pub fn has_token(q: &[u8], t: &[u8]) -> (r: bool)
    ensures
        r == spec_has_token(q@, t@),
{
    let qlen = q.len();
    let tlen = t.len();
    if tlen > qlen {
        proof {
            assert(forall|i: int| !spec_token_at(q@, t@, i));
        }
        return false;
    }
    if tlen == 0 {
        proof {
            assert(t@ =~= Seq::<u8>::empty());
        }
        return has_empty_token(q);
    }
    let mut i: usize = 0;
    while i <= qlen - tlen
        invariant
            qlen == q@.len(),
            tlen == t@.len(),
            1 <= tlen <= qlen,
            i <= qlen - tlen + 1,
            forall|k: int| 0 <= k < i ==> !spec_token_at(q@, t@, k),
        decreases qlen - tlen + 1 - i,
    {
        let left_ok = i == 0 || {
            let b = q[i - 1];
            b == 32 || b == 9 || b == 10 || b == 13
        };
        let right_ok = i + tlen == qlen || {
            let b = q[i + tlen];
            b == 32 || b == 9 || b == 10 || b == 13
        };
        if left_ok && right_ok && match_at(q, t, i) {
            proof {
                assert(spec_token_at(q@, t@, i as int));
            }
            return true;
        }
        i = i + 1;
    }
    proof {
        assert(forall|k: int| !spec_token_at(q@, t@, k));
    }
    false
}

fn has_empty_token(q: &[u8]) -> (r: bool)
    ensures
        r == spec_has_token(q@, Seq::<u8>::empty()),
{
    let qlen = q.len();
    let mut i: usize = 0;
    while i < qlen
        invariant
            qlen == q@.len(),
            i <= qlen,
            forall|k: int| 0 <= k < i ==> !spec_token_at(q@, Seq::<u8>::empty(), k),
        decreases qlen - i,
    {
        let left_ok = i == 0 || {
            let b = q[i - 1];
            b == 32 || b == 9 || b == 10 || b == 13
        };
        let here = q[i];
        if left_ok && (here == 32 || here == 9 || here == 10 || here == 13) {
            proof {
                assert(q@.subrange(i as int, i as int) =~= Seq::<u8>::empty());
                assert(spec_token_at(q@, Seq::<u8>::empty(), i as int));
            }
            return true;
        }
        proof {
            assert(q@.subrange(i as int, i as int) =~= Seq::<u8>::empty());
        }
        i = i + 1;
    }
    if qlen == 0 || {
        let b = q[qlen - 1];
        b == 32 || b == 9 || b == 10 || b == 13
    } {
        proof {
            assert(q@.subrange(qlen as int, qlen as int) =~= Seq::<u8>::empty());
            assert(spec_token_at(q@, Seq::<u8>::empty(), qlen as int));
        }
        return true;
    }
    proof {
        assert(forall|k: int| !spec_token_at(q@, Seq::<u8>::empty(), k));
    }
    false
}

} // verus!
