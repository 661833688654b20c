//! Double-precision rounding, done in integers.
//!
//! Frame rates, times and file sizes are shown after having gone through
//! binary64 arithmetic, whose rounding decides the last digit now and then.
//! This module computes those roundings exactly: a positive double is a
//! significand of 53 bits over a power of two, and each operation returns the
//! double nearest to the exact result, ties going to the even significand.
//! None of the values here comes near the limits of the exponent.

use vstd::arithmetic::power2::*;
use vstd::prelude::*;

verus! {

/// The least significand of 53 bits.
pub const SIGNIFICAND_MIN: u128 = 0x10_0000_0000_0000;

/// One more than the greatest significand of 53 bits.
pub const SIGNIFICAND_END: u128 = 0x20_0000_0000_0000;

/// The integer nearest to `n / d`, the even one of two that are equally near.
pub open spec fn round_half_even(n: nat, d: nat) -> nat {
    let q = n / d;
    let r = n % d;
    if 2 * r < d || (2 * r == d && q % 2 == 0) {
        q
    } else {
        q + 1
    }
}

/// Whether `n / d`, multiplied by `2^k`, lies in the range of the significands.
pub open spec fn has_shift(n: nat, d: nat, k: nat) -> bool {
    SIGNIFICAND_MIN * d <= n * pow2(k) < SIGNIFICAND_END * d
}

/// The power of two that takes `n / d` to the range of the significands.
pub open spec fn shift_of(n: nat, d: nat) -> nat {
    choose|k: nat| has_shift(n, d, k)
}

/// The significand of the double nearest to `n / d`: that double is
/// `significand(n, d) / 2^shift_of(n, d)`.
pub open spec fn significand(n: nat, d: nat) -> nat {
    round_half_even(n * pow2(shift_of(n, d)), d)
}

/// Whether `n` has 53 bits after the lowest `j` are dropped.
pub open spec fn has_step(n: nat, j: nat) -> bool {
    SIGNIFICAND_MIN * pow2(j) <= n < SIGNIFICAND_END * pow2(j)
}

/// The distance between the doubles around `n`, for `n` of 53 bits or more.
pub open spec fn step_of(n: nat) -> nat {
    pow2(choose|j: nat| has_step(n, j))
}

/// The double nearest to the integer `n`.
pub open spec fn nearest_integer(n: nat) -> nat {
    if n < SIGNIFICAND_END {
        n
    } else {
        round_half_even(n, step_of(n)) * step_of(n)
    }
}

/// At most one power of two takes a fraction to the range of the significands.
pub proof fn shift_is_unique(n: nat, d: nat, k1: nat, k2: nat)
    requires
        d > 0,
        has_shift(n, d, k1),
        has_shift(n, d, k2),
    ensures
        k1 == k2,
{
    if k1 < k2 {
        shift_is_ordered(n, d, k1, k2);
    } else if k2 < k1 {
        shift_is_ordered(n, d, k2, k1);
    }
}

/// Shifting further leaves the range of the significands.
proof fn shift_is_ordered(n: nat, d: nat, k1: nat, k2: nat)
    requires
        d > 0,
        has_shift(n, d, k1),
        k1 < k2,
    ensures
        !has_shift(n, d, k2),
{
    let rest = (k2 - k1 - 1) as nat;
    lemma_pow2_adds(k1, (k2 - k1) as nat);
    lemma_pow2_unfold((k2 - k1) as nat);
    lemma_pow2_pos(rest);
    let p1 = pow2(k1) as int;
    let p2 = pow2(k2) as int;
    let pr = pow2(rest) as int;
    assert(p2 == p1 * (2 * pr));
    assert(n * p2 >= 2 * (n * p1)) by (nonlinear_arith)
        requires
            p2 == p1 * (2 * pr),
            pr >= 1,
            p1 >= 0,
            n >= 0,
    ;
}

/// Every positive fraction below the significands can be taken to their range.
pub proof fn shift_exists(n: nat, d: nat)
    requires
        0 < n < SIGNIFICAND_END * d,
    ensures
        has_shift(n, d, shift_of(n, d)),
{
    lemma2_to64();
    shift_exists_from(n, d, 0);
}

/// Doubling `n * 2^k` reaches the range of the significands.
proof fn shift_exists_from(n: nat, d: nat, k: nat)
    requires
        0 < n,
        n * pow2(k) < SIGNIFICAND_END * d,
    ensures
        exists|j: nat| has_shift(n, d, j),
    decreases SIGNIFICAND_END * d - n * pow2(k),
{
    if SIGNIFICAND_MIN * d <= n * pow2(k) {
        assert(has_shift(n, d, k));
    } else {
        lemma_pow2_unfold(k + 1);
        lemma_pow2_pos(k);
        let p = pow2(k) as int;
        assert(n * (2 * p) == 2 * (n * p)) by (nonlinear_arith);
        assert(n * p > 0) by (nonlinear_arith)
            requires
                n > 0,
                p > 0,
        ;
        shift_exists_from(n, d, k + 1);
    }
}

/// At most one number of low bits leaves 53 bits.
pub proof fn step_is_unique(n: nat, j1: nat, j2: nat)
    requires
        has_step(n, j1),
        has_step(n, j2),
    ensures
        j1 == j2,
{
    if j1 < j2 {
        step_is_ordered(n, j1, j2);
    } else if j2 < j1 {
        step_is_ordered(n, j2, j1);
    }
}

/// Dropping more bits leaves fewer than 53.
proof fn step_is_ordered(n: nat, j1: nat, j2: nat)
    requires
        has_step(n, j1),
        j1 < j2,
    ensures
        !has_step(n, j2),
{
    let rest = (j2 - j1 - 1) as nat;
    lemma_pow2_adds(j1, (j2 - j1) as nat);
    lemma_pow2_unfold((j2 - j1) as nat);
    lemma_pow2_pos(rest);
    let p1 = pow2(j1) as int;
    let p2 = pow2(j2) as int;
    let pr = pow2(rest) as int;
    assert(p2 >= 2 * p1) by (nonlinear_arith)
        requires
            p2 == p1 * (2 * pr),
            pr >= 1,
            p1 >= 0,
    ;
}

/// The integer nearest to `n / d`, ties to even.
pub fn round_ratio(n: u128, d: u128) -> (q: u128)
    requires
        0 < d <= u128::MAX / 2,
        n < u128::MAX,
    ensures
        q == round_half_even(n as nat, d as nat),
{
    let q: u128 = n / d;
    let r: u128 = n % d;
    assert(q <= n) by (nonlinear_arith)
        requires
            q == n / d,
            d >= 1,
    ;
    if 2 * r < d || (2 * r == d && q % 2 == 0) {
        q
    } else {
        q + 1
    }
}

/// A positive double `mant / scale`, where `scale` is a power of two; or zero,
/// with the significand 0.
#[derive(Clone, Copy)]
pub struct Double {
    pub mant: u128,
    pub scale: u128,
}

impl Double {
    /// Whether this is the double nearest to `n / d`.
    pub open spec fn is_ratio(self, n: nat, d: nat) -> bool {
        if n == 0 {
            self.mant == 0 && self.scale == 1
        } else {
            self.mant == significand(n, d) && self.scale == pow2(shift_of(n, d))
        }
    }
}

/// The double nearest to `n / d`.
pub fn nearest_ratio(n: u128, d: u128) -> (x: Double)
    requires
        n <= 0x2_0000_0000_0000_0000,
        0 < d <= 0xffff_ffff,
        n < SIGNIFICAND_END * d,
    ensures
        x.is_ratio(n as nat, d as nat),
        x.mant <= SIGNIFICAND_END,
        n > 0 ==> x.mant >= SIGNIFICAND_MIN,
        x.mant <= n * x.scale + 1,
        0 < x.scale <= 0x20_0000_0000_0000_0000_0000,
{
    if n == 0 {
        return Double { mant: 0, scale: 1 };
    }
    let mut shifted: u128 = n;
    let mut scale: u128 = 1;
    let ghost mut k: nat = 0;
    proof {
        lemma2_to64();
    }
    while shifted < SIGNIFICAND_MIN * d
        invariant
            0 < d <= 0xffff_ffff,
            0 < n,
            shifted == n * scale,
            scale == pow2(k),
            scale >= 1,
            1 <= shifted < SIGNIFICAND_END * d,
        decreases SIGNIFICAND_END * d - shifted,
    {
        proof {
            lemma_pow2_unfold(k + 1);
            assert(2 * (n * scale) == n * (2 * scale)) by (nonlinear_arith);
            assert(scale <= shifted) by (nonlinear_arith)
                requires
                    shifted == n * scale,
                    n >= 1,
            ;
            k = k + 1;
        }
        shifted = 2 * shifted;
        scale = 2 * scale;
    }
    assert(scale <= shifted) by (nonlinear_arith)
        requires
            shifted == n * scale,
            n >= 1,
    ;
    let mant: u128 = round_ratio(shifted, d);
    proof {
        assert(has_shift(n as nat, d as nat, k));
        shift_is_unique(n as nat, d as nat, k, shift_of(n as nat, d as nat));
        assert(SIGNIFICAND_MIN <= shifted / d < SIGNIFICAND_END) by (nonlinear_arith)
            requires
                SIGNIFICAND_MIN * d <= shifted < SIGNIFICAND_END * d,
                d > 0,
        ;
        assert(shifted / d <= shifted) by (nonlinear_arith)
            requires
                d >= 1,
                shifted >= 0,
        ;
    }
    Double { mant, scale }
}

/// The double nearest to the integer `n`.
pub fn nearest_int(n: u128) -> (x: u128)
    requires
        n <= 0x400_0000_0000_0000_0000_0000_0000,
    ensures
        x == nearest_integer(n as nat),
        x <= 2 * n,
{
    if n < SIGNIFICAND_END {
        return n;
    }
    let mut step: u128 = 1;
    let ghost mut j: nat = 0;
    proof {
        lemma2_to64();
    }
    while n / step >= SIGNIFICAND_END
        invariant
            n <= 0x400_0000_0000_0000_0000_0000_0000,
            1 <= step,
            step == pow2(j),
            SIGNIFICAND_MIN * step <= n,
        decreases n - step,
    {
        assert(n >= SIGNIFICAND_END * step) by (nonlinear_arith)
            requires
                n / step >= SIGNIFICAND_END,
                step >= 1,
        ;
        proof {
            lemma_pow2_unfold(j + 1);
            j = j + 1;
        }
        step = 2 * step;
    }
    let m: u128 = round_ratio(n, step);
    proof {
        assert(n < SIGNIFICAND_END * step) by (nonlinear_arith)
            requires
                n / step < SIGNIFICAND_END,
                step >= 1,
        ;
        assert(has_step(n as nat, j));
        step_is_unique(n as nat, j, choose|j: nat| has_step(n as nat, j));
        assert(m * step <= n + step) by (nonlinear_arith)
            requires
                m <= n / step + 1,
                step >= 1,
        ;
    }
    m * step
}

} // verus!
