//! Small verified numeric helpers: decimal rendering of unsigned integers
//! (used to build response strings) and a floor base-2 logarithm (used by
//! the fixed-point entropy transform).

use vstd::prelude::*;
use vstd::arithmetic::power2::{pow2, lemma_pow2_unfold, lemma_pow2_strictly_increases, lemma2_to64};
use vstd::string::StringExecFns;

verus! {

/// The character for a single decimal digit.
pub open spec fn digit_char(d: int) -> char {
    if d == 0 {
        '0'
    } else if d == 1 {
        '1'
    } else if d == 2 {
        '2'
    } else if d == 3 {
        '3'
    } else if d == 4 {
        '4'
    } else if d == 5 {
        '5'
    } else if d == 6 {
        '6'
    } else if d == 7 {
        '7'
    } else if d == 8 {
        '8'
    } else {
        '9'
    }
}

/// The decimal rendering of `n`, most significant digit first, with no
/// leading zeros (a single `'0'` for zero).
pub open spec fn spec_digits(n: nat) -> Seq<char>
    decreases n,
{
    if n < 10 {
        seq![digit_char(n as int)]
    } else {
        spec_digits(n / 10).push(digit_char((n % 10) as int))
    }
}

fn digit_str(d: u64) -> (r: &'static str)
    requires
        d < 10,
    ensures
        r@ =~= seq![digit_char(d as int)],
{
    proof {
        reveal_strlit("0");
        reveal_strlit("1");
        reveal_strlit("2");
        reveal_strlit("3");
        reveal_strlit("4");
        reveal_strlit("5");
        reveal_strlit("6");
        reveal_strlit("7");
        reveal_strlit("8");
        reveal_strlit("9");
    }
    match d {
        0 => "0",
        1 => "1",
        2 => "2",
        3 => "3",
        4 => "4",
        5 => "5",
        6 => "6",
        7 => "7",
        8 => "8",
        _ => "9",
    }
}

/// Renders `n` in decimal.
pub fn u64_to_string(n: u64) -> (r: String)
    ensures
        r@ == spec_digits(n as nat),
    decreases n,
{
    if n < 10 {
        String::from_str(digit_str(n))
    } else {
        let mut s = u64_to_string(n / 10);
        s.append(digit_str(n % 10));
        proof {
            assert(s@ =~= spec_digits(n as nat));
        }
        s
    }
}

/// A product grows with its factors.
pub proof fn lemma_mul_le(a: int, b: int, a2: int, b2: int)
    by (nonlinear_arith)
    requires
        0 <= a,
        a <= a2,
        0 <= b,
        b <= b2,
    ensures
        a * b <= a2 * b2,
{
}

/// Floor of the base-2 logarithm, with `spec_ilog2(0) == 0`.
pub open spec fn spec_ilog2(n: nat) -> nat
    decreases n,
{
    if n < 2 {
        0
    } else {
        1 + spec_ilog2(n / 2)
    }
}

/// Floor base-2 logarithm of a `u64`.
pub fn ilog2_u64(n: u64) -> (r: u64)
    ensures
        r == spec_ilog2(n as nat),
        r <= 63,
        n >= 1 ==> pow2(r as nat) <= n as nat,
    decreases n,
{
    if n < 2 {
        proof {
            lemma2_to64();
        }
        0
    } else {
        let sub = ilog2_u64(n / 2);
        proof {
            lemma_pow2_unfold((sub + 1) as nat);
            assert(pow2((sub + 1) as nat) == 2 * pow2(sub as nat));
            assert(2 * pow2(sub as nat) <= 2 * ((n / 2) as nat));
            assert(2 * ((n / 2) as nat) <= n as nat);
            if sub + 1 > 63 {
                lemma2_to64();
                if sub + 1 > 64 {
                    lemma_pow2_strictly_increases(64, (sub + 1) as nat);
                }
                assert(pow2((sub + 1) as nat) >= pow2(64));
                assert(false);
            }
        }
        sub + 1
    }
}

} // verus!
