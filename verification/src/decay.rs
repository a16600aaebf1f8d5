//! The floor-truncation decay step shared by the emission schedule and the
//! raffle pool: one multiplication by the fixed factor in (0,1), truncated
//! back to the integer domain.

use vstd::prelude::*;
use vstd::arithmetic::div_mod::{
    lemma_div_by_multiple, lemma_div_is_ordered, lemma_div_multiples_vanish_fancy,
    lemma_fundamental_div_mod, lemma_mod_bound,
};
use vstd::arithmetic::mul::{
    lemma_mul_inequality, lemma_mul_is_associative, lemma_mul_is_commutative,
    lemma_mul_is_distributive_add_other_way,
};
use crate::params::{DECAY_DENOMINATOR, DECAY_NUMERATOR};

verus! {

/// The decayed value: the floor of the real product of `v` and the decay
/// factor DECAY_NUMERATOR / DECAY_DENOMINATOR.
pub open spec fn decay_spec(v: nat) -> nat {
    ((v * DECAY_NUMERATOR) / (DECAY_DENOMINATOR as int)) as nat
}

/// Law: decaying never enlarges a value (the factor is below one).
pub proof fn lemma_decay_le(v: nat)
    ensures
        decay_spec(v) <= v,
{
    lemma_mul_inequality(DECAY_NUMERATOR as int, DECAY_DENOMINATOR as int, v as int);
    lemma_mul_is_commutative(v as int, DECAY_NUMERATOR as int);
    lemma_mul_is_commutative(v as int, DECAY_DENOMINATOR as int);
    lemma_div_is_ordered(
        (v * DECAY_NUMERATOR) as int,
        (v * DECAY_DENOMINATOR) as int,
        DECAY_DENOMINATOR as int,
    );
    lemma_div_by_multiple(v as int, DECAY_DENOMINATOR as int);
}

/// The decayed value written over the quotient and remainder of `v` by the
/// denominator: `q * n + r * n / d`. In this shape no intermediate of the
/// computation exceeds 128 bits.
pub open spec fn decay_split_spec(v: nat) -> int {
    let n = DECAY_NUMERATOR as int;
    let d = DECAY_DENOMINATOR as int;
    (v as int / d) * n + ((v as int % d) * n) / d
}

/// The two shapes of the decayed value agree.
proof fn lemma_decay_split(v: nat)
    ensures
        decay_spec(v) == decay_split_spec(v),
{
    let n = DECAY_NUMERATOR as int;
    let d = DECAY_DENOMINATOR as int;
    let q = v as int / d;
    let r = v as int % d;
    lemma_fundamental_div_mod(v as int, d);
    assert(v as int == d * q + r);
    assert((d * q + r) * n == (d * q) * n + r * n) by {
        lemma_mul_is_distributive_add_other_way(n, d * q, r);
    }
    assert((d * q) * n == d * (q * n)) by {
        lemma_mul_is_associative(d, q, n);
    }
    let b = r * n;
    lemma_fundamental_div_mod(b, d);
    lemma_mod_bound(b, d);
    assert(d * (q * n) + b == d * (q * n + b / d) + b % d) by {
        assert(d * (q * n + b / d) == d * (q * n) + d * (b / d)) by {
            vstd::arithmetic::mul::lemma_mul_is_distributive_add(d, q * n, b / d);
        }
    }
    lemma_div_multiples_vanish_fancy(q * n + b / d, b % d, d);
}

/// One decay step on a 64-bit value, widened through 128 bits.
pub fn decay_u64(v: u64) -> (r: u64)
    ensures
        r == decay_spec(v as nat),
        r <= v,
{
    proof {
        lemma_decay_le(v as nat);
        lemma_mul_inequality(v as int, u64::MAX as int, DECAY_NUMERATOR as int);
    }
    let wide: u128 = (v as u128) * (DECAY_NUMERATOR as u128);
    let res: u128 = wide / (DECAY_DENOMINATOR as u128);
    res as u64
}

/// One decay step on a 128-bit value. The product is taken apart as
/// quotient and remainder by the denominator so that no intermediate
/// exceeds 128 bits.
pub fn decay_u128(v: u128) -> (r: u128)
    ensures
        r == decay_spec(v as nat),
        r <= v,
{
    let d: u128 = DECAY_DENOMINATOR as u128;
    let n: u128 = DECAY_NUMERATOR as u128;
    let q: u128 = v / d;
    let rem: u128 = v % d;
    proof {
        lemma_decay_split(v as nat);
        lemma_decay_le(v as nat);
        // q * n stays within bounds: it is at most q * d, which is at most v.
        lemma_mul_inequality(n as int, d as int, q as int);
        lemma_mul_is_commutative(q as int, n as int);
        lemma_mul_is_commutative(q as int, d as int);
        lemma_fundamental_div_mod(v as int, d as int);
        vstd::arithmetic::mul::lemma_mul_is_commutative(d as int, q as int);
        // rem * n stays within bounds: rem is below the denominator.
        lemma_mod_bound(v as int, d as int);
        lemma_mul_inequality(rem as int, d as int, n as int);
    }
    let high: u128 = q * n;
    let low: u128 = (rem * n) / d;
    high + low
}

} // verus!
