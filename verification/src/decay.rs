//! Fixed-point exponential decay.
//!
//! The continuous model multiplies a quantity by `e^(-rate * dt)` each tick.
//! Here that factor is a Q32 fraction obtained by repeated multiplication
//! with a per-millisecond decay constant, rounding down at every step, so
//! the computed factor never exceeds the true one and a decaying error can
//! only shrink at least as fast as in the continuous model.

use vstd::arithmetic::power::pow;
use vstd::prelude::*;

verus! {

/// One in the Q32 fixed-point scale: fractions in `[0, 1]` are stored as
/// integers in `[0, FRAC_ONE]`.
pub const FRAC_ONE: u64 = 0x1_0000_0000;

/// Largest tick duration the simulation accepts, in milliseconds (one hour).
pub const MAX_TICK_MS: u64 = 3_600_000;

/// Retained fraction after `n` milliseconds of decay with per-millisecond
/// factor `r / FRAC_ONE`, rounding down at every step.
pub open spec fn pow_frac(r: int, n: nat) -> int
    decreases n,
{
    if n == 0 {
        FRAC_ONE as int
    } else {
        pow_frac(r, (n - 1) as nat) * r / (FRAC_ONE as int)
    }
}

pub proof fn lemma_pow_frac_bounds(r: int, n: nat)
    requires
        0 <= r <= FRAC_ONE,
    ensures
        0 <= pow_frac(r, n) <= FRAC_ONE,
    decreases n,
{
    if n > 0 {
        lemma_pow_frac_bounds(r, (n - 1) as nat);
        let prev = pow_frac(r, (n - 1) as nat);
        assert(0 <= prev * r <= FRAC_ONE * FRAC_ONE) by (nonlinear_arith)
            requires
                0 <= prev <= FRAC_ONE,
                0 <= r <= FRAC_ONE,
        ;
        assert(0 <= prev * r / (FRAC_ONE as int) <= FRAC_ONE) by (nonlinear_arith)
            requires
                0 <= prev * r <= FRAC_ONE * FRAC_ONE,
        ;
    }
}

/// A decay step never increases the retained fraction.
pub proof fn lemma_pow_frac_decreasing(r: int, m: nat, n: nat)
    requires
        0 <= r <= FRAC_ONE,
        m <= n,
    ensures
        pow_frac(r, n) <= pow_frac(r, m),
    decreases n,
{
    if m < n {
        lemma_pow_frac_decreasing(r, m, (n - 1) as nat);
        let prev = pow_frac(r, (n - 1) as nat);
        lemma_pow_frac_bounds(r, (n - 1) as nat);
        assert(prev * r / (FRAC_ONE as int) <= prev) by (nonlinear_arith)
            requires
                0 <= prev,
                0 <= r <= FRAC_ONE,
        ;
    }
}

/// With a strictly-below-one factor, at least one millisecond of decay
/// leaves a fraction strictly below one.
pub proof fn lemma_pow_frac_below_one(r: int, n: nat)
    requires
        0 <= r < FRAC_ONE,
        n >= 1,
    ensures
        pow_frac(r, n) <= r < FRAC_ONE,
{
    lemma_pow_frac_decreasing(r, 1, n);
    assert(pow_frac(r, 0) == FRAC_ONE as int);
    assert(pow_frac(r, 1) == FRAC_ONE * r / (FRAC_ONE as int));
    assert(FRAC_ONE * r / (FRAC_ONE as int) == r) by (nonlinear_arith);
}

/// Computes `pow_frac` exactly.
pub fn decay_pow(r: u64, n: u64) -> (p: u64)
    requires
        r < FRAC_ONE,
        n <= MAX_TICK_MS,
    ensures
        p == pow_frac(r as int, n as nat),
        p <= FRAC_ONE,
{
    proof {
        lemma_pow_frac_bounds(r as int, n as nat);
    }
    let mut p: u64 = FRAC_ONE;
    let mut i: u64 = 0;
    while i < n
        invariant
            i <= n,
            r < FRAC_ONE,
            p == pow_frac(r as int, i as nat),
            p <= FRAC_ONE,
        decreases n - i,
    {
        proof {
            assert(p * r <= FRAC_ONE * (FRAC_ONE - 1)) by (nonlinear_arith)
                requires
                    0 <= p <= FRAC_ONE,
                    0 <= r <= FRAC_ONE - 1,
            ;
            lemma_pow_frac_bounds(r as int, (i + 1) as nat);
        }
        p = p * r / FRAC_ONE;
        i = i + 1;
    }
    p
}


/// `pow` is monotone in a non-negative base.
pub proof fn lemma_pow_base_monotone(a: int, b: int, e: nat)
    requires
        0 <= a <= b,
    ensures
        pow(a, e) <= pow(b, e),
    decreases e,
{
    reveal(pow);
    if e > 0 {
        lemma_pow_base_monotone(a, b, (e - 1) as nat);
        let pa = pow(a, (e - 1) as nat);
        let pb = pow(b, (e - 1) as nat);
        assert(pa >= 0) by {
            if a == 0 {
                if e - 1 == 0 {
                } else {
                    vstd::arithmetic::power::lemma0_pow((e - 1) as nat);
                }
            } else {
                vstd::arithmetic::power::lemma_pow_positive(a, (e - 1) as nat);
            }
        }
        assert(a * pa <= b * pb) by (nonlinear_arith)
            requires
                0 <= a <= b,
                0 <= pa <= pb,
        ;
    }
}

/// Decaying `b` further milliseconds from the fraction reached after `a`
/// is bounded by the exact power: `pow_frac(r, a + b) * FRAC_ONE^b <=
/// pow_frac(r, a) * r^b`.
pub proof fn lemma_pow_frac_shift(r: int, a: nat, b: nat)
    requires
        0 <= r <= FRAC_ONE,
    ensures
        pow_frac(r, (a + b) as nat) * pow(FRAC_ONE as int, b) <= pow_frac(r, a) * pow(r, b),
    decreases b,
{
    reveal(pow);
    lemma_pow_frac_bounds(r, a);
    if b == 0 {
    } else {
        let b1 = (b - 1) as nat;
        lemma_pow_frac_shift(r, a, b1);
        lemma_pow_frac_bounds(r, (a + b1) as nat);
        lemma_pow_frac_bounds(r, (a + b) as nat);
        let p = pow_frac(r, (a + b1) as nat);
        let q = pow_frac(r, (a + b) as nat);
        let u = FRAC_ONE as int;
        assert(q == p * r / u);
        assert(q * u <= p * r) by (nonlinear_arith)
            requires
                q == p * r / u,
                0 <= p,
                0 <= r,
                u == FRAC_ONE as int,
        ;
        let pu = pow(u, b1);
        let pr = pow(r, b1);
        vstd::arithmetic::power::lemma_pow_positive(u, b1);
        assert(pr >= 0) by {
            if r == 0 {
                if b1 == 0 {
                } else {
                    vstd::arithmetic::power::lemma0_pow(b1);
                }
            } else {
                vstd::arithmetic::power::lemma_pow_positive(r, b1);
            }
        }
        // pow unfolds one step at the front: pow(x, b) == x * pow(x, b1)
        assert(pow(u, b) == u * pu);
        assert(pow(r, b) == r * pr);
        let pa = pow_frac(r, a);
        // q * (u * pu) <= (p * r) * pu <= (pa * pr) * r
        assert(q * (u * pu) == (q * u) * pu) by (nonlinear_arith);
        assert((q * u) * pu <= (p * r) * pu) by (nonlinear_arith)
            requires
                q * u <= p * r,
                0 <= pu,
        ;
        assert((p * r) * pu == (p * pu) * r) by (nonlinear_arith);
        assert(p * pu <= pa * pr) by {
            assert(pow_frac(r, (a + b1) as nat) * pow(FRAC_ONE as int, b1) <= pow_frac(r, a) * pow(
                r,
                b1,
            ));
        }
        assert((p * pu) * r <= (pa * pr) * r) by (nonlinear_arith)
            requires
                p * pu <= pa * pr,
                0 <= r,
        ;
        assert((pa * pr) * r == pa * (r * pr)) by (nonlinear_arith);
    }
}

/// The true power is bounded by the floor-iterated fraction plus one unit
/// of rounding loss per step: `r^b <= (pow_frac(r, b) + b) * FRAC_ONE^(b-1)`.
pub proof fn lemma_pow_frac_additive_error(r: int, b: nat)
    requires
        0 <= r < FRAC_ONE,
        b >= 1,
    ensures
        pow(r, b) <= (pow_frac(r, b) + b) * pow(FRAC_ONE as int, (b - 1) as nat),
    decreases b,
{
    reveal(pow);
    let u = FRAC_ONE as int;
    lemma_pow_frac_bounds(r, b);
    if b == 1 {
        assert(pow(r, 1) == r * pow(r, 0));
        assert(pow_frac(r, 1) == u * r / u);
        assert(u * r / u == r) by (nonlinear_arith)
            requires
                u >= 1,
                0 <= r,
        ;
        assert(pow(u, 0) == 1);
    } else {
        let b1 = (b - 1) as nat;
        lemma_pow_frac_additive_error(r, b1);
        lemma_pow_frac_bounds(r, b1);
        let p = pow_frac(r, b1);
        let q = pow_frac(r, b);
        assert(q == p * r / u);
        // p * r <= (q + 1) * u from the floor definition
        assert(p * r <= (q + 1) * u) by (nonlinear_arith)
            requires
                q == p * r / u,
                0 <= p,
                0 <= r,
                u == FRAC_ONE as int,
                u >= 1,
        ;
        let pu1 = pow(u, (b1 - 1) as nat);
        let pu2 = pow(u, b1);
        vstd::arithmetic::power::lemma_pow_positive(u, (b1 - 1) as nat);
        vstd::arithmetic::power::lemma_pow_positive(u, b1);
        assert(pu2 == u * pu1);
        assert(pow(r, b) == r * pow(r, b1));
        assert(pow(r, b1) >= 0) by {
            if r == 0 {
                if b1 == 0 {
                } else {
                    vstd::arithmetic::power::lemma0_pow(b1);
                }
            } else {
                vstd::arithmetic::power::lemma_pow_positive(r, b1);
            }
        }
        let prb1 = pow(r, b1);
        // pow(r, b) == prb1 * r <= ((p + b1) * pu1) * r
        assert(prb1 * r <= ((p + b1) * pu1) * r) by (nonlinear_arith)
            requires
                prb1 <= (p + b1) * pu1,
                0 <= r,
        ;
        // ((p + b1) * pu1) * r == (p * r + b1 * r) * pu1
        assert(((p + b1) * pu1) * r == (p * r + b1 * r) * pu1) by (nonlinear_arith);
        // p * r + b1 * r <= (q + 1) * u + b1 * u == (q + b) * u
        assert(b1 * r <= b1 * u) by (nonlinear_arith)
            requires
                0 <= b1,
                r <= u,
        ;
        assert((p * r + b1 * r) * pu1 <= ((q + b) * u) * pu1) by (nonlinear_arith)
            requires
                p * r + b1 * r <= (q + b) * u,
                0 <= pu1,
        ;
        assert(((q + b) * u) * pu1 == (q + b) * (u * pu1)) by (nonlinear_arith);
        assert(pow(r, b) == r * prb1);
        assert(r * prb1 == prb1 * r) by (nonlinear_arith);
    }
}

/// Splitting a decay run: `pow_frac(r, a + b) * FRAC_ONE <=
/// pow_frac(r, a) * (pow_frac(r, b) + b)`.
pub proof fn lemma_pow_frac_add_bound(r: int, a: nat, b: nat)
    requires
        0 <= r < FRAC_ONE,
        b >= 1,
    ensures
        pow_frac(r, (a + b) as nat) * (FRAC_ONE as int) <= pow_frac(r, a) * (pow_frac(r, b) + b),
{
    reveal(pow);
    let u = FRAC_ONE as int;
    lemma_pow_frac_shift(r, a, b);
    lemma_pow_frac_additive_error(r, b);
    lemma_pow_frac_bounds(r, a);
    lemma_pow_frac_bounds(r, b);
    lemma_pow_frac_bounds(r, (a + b) as nat);
    let pab = pow_frac(r, (a + b) as nat);
    let pa = pow_frac(r, a);
    let pb = pow_frac(r, b);
    let pu1 = pow(u, (b - 1) as nat);
    let pub_ = pow(u, b);
    vstd::arithmetic::power::lemma_pow_positive(u, (b - 1) as nat);
    vstd::arithmetic::power::lemma_pow_positive(u, b);
    assert(pub_ == u * pu1);
    let prb = pow(r, b);
    // pab * (u * pu1) <= pa * prb <= pa * ((pb + b) * pu1)
    assert(pa * prb <= pa * ((pb + b) * pu1)) by (nonlinear_arith)
        requires
            prb <= (pb + b) * pu1,
            0 <= pa,
    ;
    assert(pab * (u * pu1) == (pab * u) * pu1) by (nonlinear_arith);
    assert(pa * ((pb + b) * pu1) == (pa * (pb + b)) * pu1) by (nonlinear_arith);
    // (pab * u) * pu1 <= (pa * (pb + b)) * pu1 with pu1 >= 1 cancels
    assert(pab * u <= pa * (pb + b)) by (nonlinear_arith)
        requires
            (pab * u) * pu1 <= (pa * (pb + b)) * pu1,
            pu1 >= 1,
    ;
}

} // verus!
