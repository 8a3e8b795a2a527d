use vstd::prelude::*;

verus! {

use vstd::arithmetic::div_mod::{
    lemma_div_is_ordered, lemma_div_multiples_vanish, lemma_fundamental_div_mod,
    lemma_fundamental_div_mod_converse, lemma_hoist_over_denominator, lemma_multiply_divide_le,
};
use crate::{COORD_LIMIT, TENSION_LIMIT, TENSION_UNIT};

/// Largest magnitude an interpolated axis value can reach when the
/// inputs respect `COORD_LIMIT` and `TENSION_LIMIT`.
pub const SAMPLE_LIMIT: i64 = 160_012_000_000_000_000;

/// `SAMPLE_LIMIT * TENSION_UNIT`: bound on the sample numerator per unit
/// of `s^3`.
pub const NUM_UNIT_LIMIT: i128 = 160_012_000_000_000_000_000;

/// Offset added before the one unsigned division, so that the dividend
/// is never negative; a multiple of the divisor, so the quotient just
/// shifts by it.
const SHIFT: i128 = 1_000_000_000_000_000_000;

/// Numerator of the Hermite basis weight `2t^3 - 3t^2 + 1` at `t = k/s`,
/// scaled by `s^3`: the weight of `curr`.
pub open spec fn basis1(k: int, s: int) -> int {
    s * s * s - 3 * (k * k * s) + 2 * (k * k * k)
}

/// Numerator of the Hermite basis weight `-2t^3 + 3t^2` at `t = k/s`,
/// scaled by `s^3`: the weight of `next`.
pub open spec fn basis2(k: int, s: int) -> int {
    3 * (k * k * s) - 2 * (k * k * k)
}

/// Numerator of the Hermite basis weight `t^3 - 2t^2 + t` at `t = k/s`,
/// scaled by `s^3`: the weight of the incoming tangent.
pub open spec fn basis3(k: int, s: int) -> int {
    k * k * k - 2 * (k * k * s) + k * (s * s)
}

/// Numerator of the Hermite basis weight `t^3 - t^2` at `t = k/s`,
/// scaled by `s^3`: the weight of the outgoing tangent.
pub open spec fn basis4(k: int, s: int) -> int {
    k * k * k - k * k * s
}

/// Exact numerator of one interpolated axis value, over the common
/// denominator `s^3 * TENSION_UNIT`.  The tangents are the Catmull-Rom
/// finite differences `(n - p) * tn` and `(n2 - c) * tn`, with the
/// tension `tn` in `TENSION_UNIT` fixed-point units.
pub open spec fn sample_num(p: int, c: int, n: int, n2: int, tn: int, s: int, k: int) -> int {
    basis1(k, s) * c * (TENSION_UNIT as int) + basis2(k, s) * n * (TENSION_UNIT as int)
        + basis3(k, s) * (n - p) * tn + basis4(k, s) * (n2 - c) * tn
}

/// One interpolated axis value at parameter `k/s` of the interval from
/// `c` to `n`, rounded toward negative infinity.
pub open spec fn sample_axis(p: int, c: int, n: int, n2: int, tn: int, s: int, k: int) -> int {
    sample_num(p, c, n, n2, tn, s, k) / (s * s * s * (TENSION_UNIT as int))
}

/// Bounds on every monomial the evaluator computes, in the very shapes
/// the executable code builds them.
proof fn lemma_monomial_bounds(k: int, s: int)
    by (nonlinear_arith)
    requires
        0 <= k < s <= 100_000,
    ensures
        0 <= k * k <= 10_000_000_000,
        0 <= s * s <= 10_000_000_000,
        0 <= k * k * s <= 1_000_000_000_000_000,
        0 <= k * k * k <= 1_000_000_000_000_000,
        0 <= k * (s * s) <= 1_000_000_000_000_000,
        1 <= s * s * s <= 1_000_000_000_000_000,
        k * k * s <= s * s * s,
        k * k * k <= s * s * s,
        k * (s * s) <= s * s * s,
{
}

/// The product of two bounded factors is bounded by the product of the
/// bounds.
proof fn lemma_abs_mul(x: int, xb: int, y: int, yb: int)
    by (nonlinear_arith)
    requires
        -xb <= x <= xb,
        -yb <= y <= yb,
    ensures
        -(xb * yb) <= x * y <= xb * yb,
{
}

/// The four basis numerators are bounded by small multiples of `s^3`.
proof fn lemma_basis_bounds(k: int, s: int)
    requires
        0 <= k < s,
    ensures
        -6 * (s * s * s) <= basis1(k, s) <= 6 * (s * s * s),
        -6 * (s * s * s) <= basis2(k, s) <= 6 * (s * s * s),
        -4 * (s * s * s) <= basis3(k, s) <= 4 * (s * s * s),
        -2 * (s * s * s) <= basis4(k, s) <= 2 * (s * s * s),
        1 <= s * s * s,
{
    assert(0 <= k * k * s <= s * s * s && 0 <= k * k * k <= s * s * s && 0 <= k * (s * s)
        <= s * s * s && 1 <= s * s * s) by (nonlinear_arith)
        requires
            0 <= k < s,
    ;
}

/// The sample numerator is bounded by `s^3 * NUM_UNIT_LIMIT` whenever
/// the inputs respect the coordinate and tension limits.
pub proof fn lemma_sample_num_bound(p: int, c: int, n: int, n2: int, tn: int, s: int, k: int)
    requires
        0 <= k < s,
        -COORD_LIMIT <= p <= COORD_LIMIT,
        -COORD_LIMIT <= c <= COORD_LIMIT,
        -COORD_LIMIT <= n <= COORD_LIMIT,
        -COORD_LIMIT <= n2 <= COORD_LIMIT,
        -TENSION_LIMIT <= tn <= TENSION_LIMIT,
    ensures
        -(s * s * s) * (NUM_UNIT_LIMIT as int) <= sample_num(p, c, n, n2, tn, s, k) <= (s * s
            * s) * (NUM_UNIT_LIMIT as int),
{
    let s3 = s * s * s;
    lemma_basis_bounds(k, s);
    lemma_abs_mul(basis1(k, s), 6 * s3, c, COORD_LIMIT as int);
    lemma_abs_mul(basis2(k, s), 6 * s3, n, COORD_LIMIT as int);
    lemma_abs_mul(basis3(k, s), 4 * s3, n - p, 2 * (COORD_LIMIT as int));
    lemma_abs_mul(basis3(k, s) * (n - p), 8 * s3 * (COORD_LIMIT as int), tn,
        TENSION_LIMIT as int);
    lemma_abs_mul(basis4(k, s), 2 * s3, n2 - c, 2 * (COORD_LIMIT as int));
    lemma_abs_mul(basis4(k, s) * (n2 - c), 4 * s3 * (COORD_LIMIT as int), tn,
        TENSION_LIMIT as int);
}

/// Interpolated axis values stay within `SAMPLE_LIMIT` whenever the
/// inputs respect the coordinate and tension limits.
pub proof fn lemma_sample_axis_bound(p: int, c: int, n: int, n2: int, tn: int, s: int, k: int)
    requires
        0 <= k < s,
        -COORD_LIMIT <= p <= COORD_LIMIT,
        -COORD_LIMIT <= c <= COORD_LIMIT,
        -COORD_LIMIT <= n <= COORD_LIMIT,
        -COORD_LIMIT <= n2 <= COORD_LIMIT,
        -TENSION_LIMIT <= tn <= TENSION_LIMIT,
    ensures
        -SAMPLE_LIMIT <= sample_axis(p, c, n, n2, tn, s, k) <= SAMPLE_LIMIT,
{
    let s3 = s * s * s;
    let d = s3 * (TENSION_UNIT as int);
    let num = sample_num(p, c, n, n2, tn, s, k);
    lemma_sample_num_bound(p, c, n, n2, tn, s, k);
    assert(1 <= s3) by (nonlinear_arith)
        requires
            0 <= k < s,
            s3 == s * s * s,
    ;
    assert(d * (SAMPLE_LIMIT as int) == s3 * (NUM_UNIT_LIMIT as int));
    assert(d * -(SAMPLE_LIMIT as int) == -(s3 * (NUM_UNIT_LIMIT as int)));
    lemma_div_is_ordered(d * -(SAMPLE_LIMIT as int), num, d);
    lemma_div_is_ordered(num, d * (SAMPLE_LIMIT as int), d);
    lemma_div_multiples_vanish(SAMPLE_LIMIT as int, d);
    lemma_div_multiples_vanish(-(SAMPLE_LIMIT as int), d);
}

/// The first sample of every interval is exactly `curr`: at `k = 0` the
/// basis weights collapse to `(1, 0, 0, 0)`.
pub proof fn lemma_sample_at_zero(p: int, c: int, n: int, n2: int, tn: int, s: int)
    requires
        1 <= s,
    ensures
        sample_axis(p, c, n, n2, tn, s, 0) == c,
{
    let s3 = s * s * s;
    let d = s3 * (TENSION_UNIT as int);
    assert(basis1(0, s) == s3 && basis2(0, s) == 0 && basis3(0, s) == 0 && basis4(0, s)
        == 0) by (nonlinear_arith)
        requires
            s3 == s * s * s,
            basis1(0, s) == s * s * s - 3 * (0 * 0 * s) + 2 * (0 * 0 * 0),
            basis2(0, s) == 3 * (0 * 0 * s) - 2 * (0 * 0 * 0),
            basis3(0, s) == 0 * 0 * 0 - 2 * (0 * 0 * s) + 0 * (s * s),
            basis4(0, s) == 0 * 0 * 0 - 0 * 0 * s,
    ;
    assert(sample_num(p, c, n, n2, tn, s, 0) == d * c) by (nonlinear_arith)
        requires
            sample_num(p, c, n, n2, tn, s, 0) == basis1(0, s) * c * (TENSION_UNIT as int)
                + basis2(0, s) * n * (TENSION_UNIT as int) + basis3(0, s) * (n - p) * tn
                + basis4(0, s) * (n2 - c) * tn,
            basis1(0, s) == s * s * s,
            basis2(0, s) == 0,
            basis3(0, s) == 0,
            basis4(0, s) == 0,
            d == (s * s * s) * (TENSION_UNIT as int),
    ;
    assert(0 < d) by (nonlinear_arith)
        requires
            1 <= s,
            d == (s * s * s) * (TENSION_UNIT as int),
    ;
    lemma_div_multiples_vanish(c, d);
}

/// With tension zero the tangent terms vanish: every sample is the
/// pure basis-weight blend of `c` and `n`, whose weights sum to `s^3`,
/// and so lies between `c` and `n`.
pub proof fn lemma_zero_tension_chord(p: int, c: int, n: int, n2: int, s: int, k: int)
    requires
        0 <= k < s,
    ensures
        sample_axis(p, c, n, n2, 0, s, k) == (basis1(k, s) * c + basis2(k, s) * n) / (s * s * s),
        (if c <= n { c } else { n }) <= sample_axis(p, c, n, n2, 0, s, k),
        sample_axis(p, c, n, n2, 0, s, k) <= (if c <= n { n } else { c }),
{
    let s3 = s * s * s;
    let d = s3 * (TENSION_UNIT as int);
    let b1 = basis1(k, s);
    let b2 = basis2(k, s);
    let num = sample_num(p, c, n, n2, 0, s, k);
    let lo = if c <= n { c } else { n };
    let hi = if c <= n { n } else { c };
    assert(b1 == (s - k) * (s - k) * (s + 2 * k) && 0 <= b1) by (nonlinear_arith)
        requires
            0 <= k < s,
            b1 == s * s * s - 3 * (k * k * s) + 2 * (k * k * k),
    ;
    assert(b2 == (k * k) * (3 * s - 2 * k) && 0 <= b2) by (nonlinear_arith)
        requires
            0 <= k < s,
            b2 == 3 * (k * k * s) - 2 * (k * k * k),
    ;
    assert(num == b1 * c * (TENSION_UNIT as int) + b2 * n * (TENSION_UNIT as int));
    assert(d * lo <= num && num <= d * hi && 0 < d) by (nonlinear_arith)
        requires
            0 <= b1,
            0 <= b2,
            b1 + b2 == s * s * s,
            1 <= s,
            lo <= c <= hi,
            lo <= n <= hi,
            num == b1 * c * (TENSION_UNIT as int) + b2 * n * (TENSION_UNIT as int),
            d == (s * s * s) * (TENSION_UNIT as int),
            s * s * s == b1 + b2,
    ;
    lemma_div_is_ordered(d * lo, num, d);
    lemma_div_is_ordered(num, d * hi, d);
    lemma_div_multiples_vanish(lo, d);
    lemma_div_multiples_vanish(hi, d);
    let blend = b1 * c + b2 * n;
    lemma_fundamental_div_mod(blend, s3);
    let q = blend / s3;
    let rem = blend % s3;
    assert(num == (s3 * (TENSION_UNIT as int)) * q + rem * (TENSION_UNIT as int))
        by (nonlinear_arith)
        requires
            num == b1 * c * (TENSION_UNIT as int) + b2 * n * (TENSION_UNIT as int),
            blend == b1 * c + b2 * n,
            blend == s3 * q + rem,
    ;
    lemma_fundamental_div_mod_converse(num, s3 * (TENSION_UNIT as int), q, rem * (
    TENSION_UNIT as int));
}

/// Computes `sample_axis` exactly: all arithmetic is exact in 128 bits,
/// and the one flooring division is carried out on a dividend made
/// non-negative by adding `SHIFT` times the divisor.
pub(crate) fn hermite_axis(p: i64, c: i64, n: i64, n2: i64, tn: i64, s: u32, k: u32) -> (r: i64)
    requires
        k < s,
        s <= crate::SEGMENTS_LIMIT,
        -COORD_LIMIT <= p <= COORD_LIMIT,
        -COORD_LIMIT <= c <= COORD_LIMIT,
        -COORD_LIMIT <= n <= COORD_LIMIT,
        -COORD_LIMIT <= n2 <= COORD_LIMIT,
        -TENSION_LIMIT <= tn <= TENSION_LIMIT,
    ensures
        r as int == sample_axis(p as int, c as int, n as int, n2 as int, tn as int, s as int,
            k as int),
{
    proof {
        lemma_monomial_bounds(k as int, s as int);
        lemma_basis_bounds(k as int, s as int);
        lemma_sample_num_bound(p as int, c as int, n as int, n2 as int, tn as int, s as int,
            k as int);
        lemma_sample_axis_bound(p as int, c as int, n as int, n2 as int, tn as int, s as int,
            k as int);
    }
    let ki: i128 = k as i128;
    let si: i128 = s as i128;
    let k2: i128 = ki * ki;
    let k3: i128 = k2 * ki;
    let s2: i128 = si * si;
    let s3: i128 = s2 * si;
    let k2s: i128 = k2 * si;
    let ks2: i128 = ki * s2;
    let b1: i128 = s3 - 3 * k2s + 2 * k3;
    let b2: i128 = 3 * k2s - 2 * k3;
    let b3: i128 = k3 - 2 * k2s + ks2;
    let b4: i128 = k3 - k2s;
    proof {
        assert(b1 == basis1(k as int, s as int));
        assert(b2 == basis2(k as int, s as int));
        assert(b3 == basis3(k as int, s as int));
        assert(b4 == basis4(k as int, s as int));
        lemma_abs_mul(b1 as int, 6 * (s3 as int), c as int, COORD_LIMIT as int);
        lemma_abs_mul(b2 as int, 6 * (s3 as int), n as int, COORD_LIMIT as int);
        lemma_abs_mul(b3 as int, 4 * (s3 as int), (n as int) - (p as int),
            2 * (COORD_LIMIT as int));
        lemma_abs_mul((b3 as int) * ((n as int) - (p as int)), 8 * (s3 as int) * (
        COORD_LIMIT as int), tn as int, TENSION_LIMIT as int);
        lemma_abs_mul(b4 as int, 2 * (s3 as int), (n2 as int) - (c as int),
            2 * (COORD_LIMIT as int));
        lemma_abs_mul((b4 as int) * ((n2 as int) - (c as int)), 4 * (s3 as int) * (
        COORD_LIMIT as int), tn as int, TENSION_LIMIT as int);
    }
    let tu: i128 = TENSION_UNIT as i128;
    let tni: i128 = tn as i128;
    let term1: i128 = b1 * (c as i128) * tu;
    let term2: i128 = b2 * (n as i128) * tu;
    let term3: i128 = b3 * ((n as i128) - (p as i128)) * tni;
    let term4: i128 = b4 * ((n2 as i128) - (c as i128)) * tni;
    let num: i128 = term1 + term2 + term3 + term4;
    let d: i128 = s3 * tu;
    proof {
        assert(num == sample_num(p as int, c as int, n as int, n2 as int, tn as int, s as int,
            k as int));
        assert(0 < d);
        assert(num + SHIFT * d <= d * ((SHIFT as int) + (SAMPLE_LIMIT as int)));
        assert(0 <= num + SHIFT * d);
    }
    let shifted: i128 = num + SHIFT * d;
    let q: u128 = (shifted as u128) / (d as u128);
    proof {
        lemma_multiply_divide_le(shifted as int, d as int,
            (SHIFT as int) + (SAMPLE_LIMIT as int));
        lemma_hoist_over_denominator(num as int, SHIFT as int, d as nat);
    }
    let r128: i128 = (q as i128) - SHIFT;
    r128 as i64
}

} // verus!
