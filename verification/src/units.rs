//! Fixed-point units for the simulation.
//!
//! Positions and sizes are held in subpixel units (one pixel is
//! [`UNITS_PER_PIXEL`] units), velocities in subpixel units per second, and
//! times in milliseconds.  Every quantity is an `i64`, so the update rules
//! are exact integer arithmetic; the `*_LIMIT` constants below are the
//! magnitudes up to which the update routines are proved free of overflow.

use vstd::arithmetic::div_mod::{
    lemma_div_is_ordered, lemma_div_multiples_vanish, lemma_div_nonincreasing,
    lemma_div_pos_is_pos, lemma_fundamental_div_mod, lemma_mod_bound,
};
use vstd::math::abs;
use vstd::prelude::*;

verus! {

/// Subpixel units that make up one pixel.
pub const UNITS_PER_PIXEL: i64 = 1000;

/// Milliseconds in one second.  Velocities are per second, frame times in
/// milliseconds, so integrating a velocity over a frame divides by this.
pub const MILLIS_PER_SECOND: i64 = 1000;

/// Largest coordinate magnitude the update routines accept (2^40 units,
/// about a billion pixels).
pub const COORD_LIMIT: i64 = 0x100_0000_0000;

/// Largest width or height the update routines accept (2^40 units).
pub const SIZE_LIMIT: i64 = 0x100_0000_0000;

/// Largest velocity magnitude the update routines accept (2^45 units per
/// second).
pub const VEL_LIMIT: i64 = 0x2000_0000_0000;

/// Largest frame time the update routines accept (one minute).
pub const DT_LIMIT: i64 = 60_000;

/// Division rounding toward zero, the way hardware integer division does.
pub open spec fn div_toward_zero(a: int, d: int) -> int
    recommends
        d > 0,
{
    if a >= 0 {
        a / d
    } else {
        -((-a) / d)
    }
}

/// Truncating division of a signed quantity by a positive divisor.
pub fn div_trunc(a: i64, d: i64) -> (r: i64)
    requires
        d > 0,
        a > i64::MIN,
    ensures
        r == div_toward_zero(a as int, d as int),
{
    let q = a.checked_div(d);
    proof {
        if a < 0 {
            lemma_div_nonincreasing(-a as int, d as int);
            lemma_div_pos_is_pos(-a as int, d as int);
        } else {
            lemma_div_nonincreasing(a as int, d as int);
            lemma_div_pos_is_pos(a as int, d as int);
        }
    }
    q.unwrap()
}

/// Rounding toward zero never grows a quantity's magnitude; more exactly,
/// the result times the divisor stays within the dividend's magnitude.
pub proof fn lemma_div_toward_zero_abs(a: int, d: int)
    requires
        d >= 1,
    ensures
        abs(div_toward_zero(a, d)) <= abs(a),
        d * abs(div_toward_zero(a, d)) <= abs(a),
        a >= 0 ==> 0 <= div_toward_zero(a, d) <= a,
        a < 0 ==> a <= div_toward_zero(a, d) <= 0,
{
    if a >= 0 {
        lemma_div_nonincreasing(a, d);
        lemma_div_pos_is_pos(a, d);
        lemma_fundamental_div_mod(a, d);
        lemma_mod_bound(a, d);
    } else {
        lemma_div_nonincreasing(-a, d);
        lemma_div_pos_is_pos(-a, d);
        lemma_fundamental_div_mod(-a, d);
        lemma_mod_bound(-a, d);
    }
}

/// Scaling a nonnegative quantity by `num / den` with `num >= den` does not
/// shrink it, and strictly grows it once `m * (num - den)` reaches `den`.
pub proof fn lemma_scale_up_grows(m: int, num: int, den: int)
    requires
        m >= 0,
        den >= 1,
        num >= den,
    ensures
        (m * num) / den >= m,
        m * (num - den) >= den ==> (m * num) / den >= m + 1,
{
    assert(m * num >= m * den) by (nonlinear_arith)
        requires
            m >= 0,
            num >= den,
    {}
    lemma_div_multiples_vanish(m, den);
    assert((m * den) / den == m) by {
        assert(m * den == den * m) by (nonlinear_arith);
    }
    lemma_div_is_ordered(m * den, m * num, den);
    if m * (num - den) >= den {
        assert(m * num >= m * den + den) by (nonlinear_arith)
            requires
                m * (num - den) >= den,
        {}
        assert(((m + 1) * den) / den == m + 1) by {
            lemma_div_multiples_vanish(m + 1, den);
            assert((m + 1) * den == den * (m + 1)) by (nonlinear_arith);
        }
        assert(m * den + den == (m + 1) * den) by (nonlinear_arith);
        lemma_div_is_ordered((m + 1) * den, m * num, den);
    }
}

} // verus!
