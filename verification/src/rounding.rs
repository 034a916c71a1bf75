//! Rounding of exact quantities to binary floating-point precision, done on
//! integers.
//!
//! A binary format with `p` significant bits represents exactly the integers below
//! `2^p` and, above that, multiples of a power of two. Everything here rounds to
//! the nearest representable value and, half-way between two, to the one whose
//! last bit is even.

use vstd::arithmetic::power2::{
    lemma2_to64, lemma2_to64_rest, lemma_pow2_adds, lemma_pow2_strictly_increases,
    lemma_pow2_unfold, pow2,
};
use vstd::prelude::*;

verus! {

/// `2^53`: a double represents every integer below it.
pub const DOUBLE_LIMIT: u64 = 0x20_0000_0000_0000;

/// `2^24`: a single represents every integer below it.
pub const SINGLE_LIMIT: u64 = 0x100_0000;

/// `n / d` rounded to the nearest integer, half-way cases to the even one.
pub open spec fn div_nearest(n: nat, d: nat) -> nat {
    let q = n / d;
    let r = n % d;
    if 2 * r < d || (2 * r == d && q % 2 == 0) {
        q
    } else {
        q + 1
    }
}

/// The spacing of the representable values around `n`: the least power of two
/// `u` with `n < limit * u`.
pub open spec fn spacing(n: nat, limit: nat) -> nat
    decreases n,
{
    if n < limit || limit == 0 {
        1
    } else {
        2 * spacing(n / 2, limit)
    }
}

/// The representable value nearest to `n`.
pub open spec fn nearest(n: nat, limit: nat) -> nat {
    div_nearest(n, spacing(n, limit)) * spacing(n, limit)
}

proof fn lemma_spacing_step(n: nat, limit: nat, u: nat)
    requires
        limit > 0,
        u > 0,
    ensures
        (n / u) / 2 == n / (2 * u),
{
    vstd::arithmetic::div_mod::lemma_div_denominator(n as int, u as int, 2);
    assert(u * 2 == 2 * u);
}

/// The spacing is positive and its half, unless it is one, is too fine for `n`.
pub proof fn lemma_spacing_bounds(n: nat, limit: nat)
    requires
        limit > 0,
    ensures
        spacing(n, limit) >= 1,
        n < limit * spacing(n, limit),
        spacing(n, limit) > 1 ==> limit * spacing(n, limit) <= 2 * n,
    decreases n,
{
    if n >= limit {
        lemma_spacing_bounds(n / 2, limit);
        let half = spacing(n / 2, limit);
        assert(limit * (2 * half) == 2 * (limit * half)) by (nonlinear_arith);
        if half > 1 {
            assert(2 * (n / 2) <= n);
        } else {
            assert(limit * half == limit);
        }
    }
}

/// Rounding is off by at most half a spacing.
pub proof fn lemma_nearest_error(n: nat, limit: nat)
    requires
        limit > 0,
    ensures
        2 * nearest(n, limit) <= 2 * n + spacing(n, limit),
        2 * n <= 2 * nearest(n, limit) + spacing(n, limit),
        n < limit ==> nearest(n, limit) == n,
{
    lemma_spacing_bounds(n, limit);
    let u = spacing(n, limit);
    let q = n / u;
    let r = n % u;
    assert(n == q * u + r && r < u) by (nonlinear_arith)
        requires
            u >= 1,
            q == n / u,
            r == n % u,
    ;
    assert((q + 1) * u == q * u + u) by (nonlinear_arith);
    if n < limit {
        assert(u == 1);
        assert(q * u == q);
    }
}

/// Rounding does not go past a multiple of the spacing.
pub proof fn lemma_nearest_at_most(n: nat, limit: nat, count: nat)
    requires
        limit > 0,
        n <= count * spacing(n, limit),
    ensures
        nearest(n, limit) <= count * spacing(n, limit),
        n == count * spacing(n, limit) ==> nearest(n, limit) == n,
{
    lemma_spacing_bounds(n, limit);
    let u = spacing(n, limit);
    let q = n / u;
    let r = n % u;
    assert(n == q * u + r && r < u) by (nonlinear_arith)
        requires
            u >= 1,
            q == n / u,
            r == n % u,
    ;
    assert(q <= count) by (nonlinear_arith)
        requires
            q * u <= count * u,
            u >= 1,
    ;
    if q < count {
        assert((q + 1) * u <= count * u) by (nonlinear_arith)
            requires
                q + 1 <= count,
        ;
        assert(n < count * u) by (nonlinear_arith)
            requires
                n == q * u + r,
                r < u,
                q + 1 <= count,
        ;
    }
    assert(q * u <= count * u) by (nonlinear_arith)
        requires
            q <= count,
    ;
}

/// The spacing is a power of two.
pub proof fn lemma_spacing_is_power(n: nat, limit: nat) -> (k: nat)
    requires
        limit > 0,
    ensures
        spacing(n, limit) == pow2(k),
    decreases n,
{
    if n < limit {
        lemma2_to64();
        0
    } else {
        let k = lemma_spacing_is_power(n / 2, limit);
        lemma_pow2_unfold(k + 1);
        k + 1
    }
}

/// `2^k`.
pub fn two_to(k: u32) -> (res: u128)
    requires
        k <= 100,
    ensures
        res == pow2(k as nat),
        1 <= res <= 0x10_0000_0000_0000_0000_0000_0000,
{
    let mut res: u128 = 1;
    let mut i: u32 = 0;
    proof {
        lemma2_to64();
        lemma2_to64_rest();
        lemma_pow2_adds(64, 36);
    }
    while i < k
        invariant
            i <= k <= 100,
            res == pow2(i as nat),
            res >= 1,
            pow2(100) == 0x10_0000_0000_0000_0000_0000_0000,
        decreases k - i,
    {
        proof {
            lemma_pow2_unfold((i + 1) as nat);
            if i + 1 < 100 {
                lemma_pow2_strictly_increases((i + 1) as nat, 100);
            }
        }
        res = res * 2;
        i += 1;
    }
    proof {
        if k < 100 {
            lemma_pow2_strictly_increases(k as nat, 100);
        }
    }
    res
}

/// `n / d` rounded to the nearest integer.
pub fn divide_nearest(n: u128, d: u128) -> (res: u128)
    requires
        0 < d <= 0x8000_0000_0000_0000_0000_0000_0000_0000,
        n < 0x8000_0000_0000_0000_0000_0000_0000_0000,
    ensures
        res == div_nearest(n as nat, d as nat),
        res <= n + 1,
{
    let q: u128 = n / d;
    let r: u128 = n % d;
    proof {
        vstd::arithmetic::div_mod::lemma_div_is_ordered_by_denominator(n as int, 1, d as int);
    }
    if r < d - r || (r == d - r && q % 2 == 0) {
        q
    } else {
        q + 1
    }
}

/// The representable value nearest to `n`.
pub fn round_to_precision(n: u64, limit: u64) -> (res: u64)
    requires
        2 <= limit,
        n <= 0x4000_0000_0000_0000,
    ensures
        res == nearest(n as nat, limit as nat),
        res <= 2 * n,
{
    let mut unit: u64 = 1;
    let mut rest: u64 = n;
    assert(n / 1 == n);
    while rest >= limit
        invariant
            2 <= limit,
            unit >= 1,
            rest == n / unit,
            n <= 0x4000_0000_0000_0000,
            rest > 0 ==> unit <= n,
            spacing(n as nat, limit as nat) == unit * spacing(rest as nat, limit as nat),
        decreases rest,
    {
        proof {
            lemma_spacing_step(n as nat, limit as nat, unit as nat);
            assert(unit * (2 * spacing((rest / 2) as nat, limit as nat)) == (2 * unit) * spacing(
                (rest / 2) as nat,
                limit as nat,
            )) by (nonlinear_arith);
            if rest / 2 > 0 {
                assert(2 * unit <= n) by (nonlinear_arith)
                    requires
                        n / ((2 * unit) as u64) > 0,
                        2 * unit <= 0x8000_0000_0000_0000,
                        unit >= 1,
                ;
            }
        }
        unit = 2 * unit;
        rest = rest / 2;
    }
    proof {
        assert(spacing(rest as nat, limit as nat) == 1);
        assert(unit * 1 == unit);
        lemma_nearest_error(n as nat, limit as nat);
        lemma_spacing_bounds(n as nat, limit as nat);
        if unit > 1 {
            assert(unit <= n) by (nonlinear_arith)
                requires
                    limit >= 2,
                    limit * unit <= 2 * n,
                    unit > 1,
            ;
        }
    }
    let q: u128 = divide_nearest(n as u128, unit as u128);
    proof {
        assert(q * unit == nearest(n as nat, limit as nat));
    }
    (q * unit as u128) as u64
}

} // verus!
