//! Fixed-point units and the integer helpers shared by the whole crate.
use vstd::prelude::*;

verus! {

/// Fixed-point one for dimensionless ratios (eccentricity, magnitude, colour).
pub const ONE: i64 = 1_000_000;

/// Length units per parsec.
pub const PER_PARSEC: i64 = 1000;

/// Number of distinct uniform draws: a draw `k` stands for `k / UNIT_RANGE`.
pub const UNIT_RANGE: u32 = 16_777_216;

/// Largest magnitude of a length that the orbital formulas accept.
pub const MAX_LENGTH: i64 = 1_099_511_627_776;

/// Rounds `n / d` towards negative infinity.
pub fn floor_div(n: i128, d: i128) -> (r: i128)
    requires
        d > 0,
        -0x1_0000_0000_0000_0000_0000_0000 <= n <= 0x1_0000_0000_0000_0000_0000_0000,
    ensures
        r == n / d,
{
    if n >= 0 {
        let q = (n as u128) / (d as u128);
        q as i128
    } else {
        let m = (-n) as u128;
        let dd = d as u128;
        let q = m / dd;
        let rem = m % dd;
        proof {
            assert(m == dd * q + rem) by (nonlinear_arith)
                requires q == m / dd, rem == m % dd, dd > 0;
        }
        if rem == 0 {
            proof {
                assert(n == d * (-(q as int)) + 0) by (nonlinear_arith)
                    requires m == dd * q, n == -(m as int), d == dd;
                vstd::arithmetic::div_mod::lemma_fundamental_div_mod_converse(
                    n as int, d as int, -(q as int), 0);
            }
            -(q as i128)
        } else {
            proof {
                assert(n == d * (-(q as int) - 1) + (d - rem)) by (nonlinear_arith)
                    requires m == dd * q + rem, n == -(m as int), d == dd;
                vstd::arithmetic::div_mod::lemma_fundamental_div_mod_converse(
                    n as int, d as int, -(q as int) - 1, d - rem);
            }
            -(q as i128) - 1
        }
    }
}

/// The `k`-th of `UNIT_RANGE` equal steps of `span`, rounded down: `span * k / 2^24`.
pub open spec fn scaled_unit(span: int, k: int) -> int {
    (span * k) / (UNIT_RANGE as int)
}

/// `span * k / 2^24` rounded down, for a draw `k`.
pub fn scale_unit(span: i64, k: u32) -> (r: i64)
    requires
        0 <= span <= 0x7fff_ffff_ffff,
        k < UNIT_RANGE,
    ensures
        r == scaled_unit(span as int, k as int),
        0 <= r <= span,
{
    proof {
        assert(0 <= span * k <= span * UNIT_RANGE) by (nonlinear_arith)
            requires 0 <= span, 0 <= k < UNIT_RANGE;
        vstd::arithmetic::div_mod::lemma_div_is_ordered(
            span * k, span * UNIT_RANGE, UNIT_RANGE as int);
        vstd::arithmetic::div_mod::lemma_div_multiples_vanish(span as int, UNIT_RANGE as int);
        assert(span * UNIT_RANGE == UNIT_RANGE * span) by (nonlinear_arith);
    }
    let p = (span as i128) * (k as i128);
    (p / (UNIT_RANGE as i128)) as i64
}

} // verus!
