//! Conversion between representations: one generic routine, parameterized by
//! the descriptor constants of the two representations.
use vstd::arithmetic::div_mod::{lemma_fundamental_div_mod, lemma_mod_pos_bound};
use vstd::prelude::*;
use crate::model::{amp_of, excursion_of, mid_of, rescaled, round_div, saturate, AMP_LIMIT};
use crate::traits::SampleValue;

verus! {

/// `den * (n / den) <= n < den * (n / den) + den` for a positive divisor.
pub proof fn lemma_div_bracket(n: int, den: int)
    requires
        0 <= n,
        0 < den,
    ensures
        den * (n / den) <= n < den * (n / den) + den,
{
    lemma_fundamental_div_mod(n, den);
    lemma_mod_pos_bound(n, den);
}

/// Rounding `m * to_amp / from_amp` never leaves `[0, to_amp]` while `m`
/// stays within `[0, from_amp]`.
pub proof fn lemma_round_div_bounds(m: int, from_amp: int, to_amp: int)
    requires
        0 <= m <= from_amp,
        0 < from_amp,
        0 < to_amp,
    ensures
        0 <= m * to_amp <= from_amp * to_amp,
        0 <= round_div(m * to_amp, from_amp) <= to_amp,
{
    assert(0 <= m * to_amp <= from_amp * to_amp) by (nonlinear_arith)
        requires
            0 <= m <= from_amp,
            0 < to_amp,
    ;
    let n = 2 * (m * to_amp) + from_amp;
    let den = 2 * from_amp;
    let q = n / den;
    lemma_div_bracket(n, den);
    assert(0 <= q <= to_amp) by (nonlinear_arith)
        requires
            den * q <= n < den * q + den,
            0 <= n <= 2 * (from_amp * to_amp) + from_amp,
            den == 2 * from_amp,
            0 < from_amp,
    ;
}

/// Excursion `d` scaled from `from_amp` to `to_amp`, rounded to the nearest
/// integer with halves away from zero.
pub fn rescale(d: i64, from_amp: i64, to_amp: i64) -> (r: i64)
    requires
        0 < from_amp <= AMP_LIMIT,
        0 < to_amp <= AMP_LIMIT,
        -from_amp <= d <= from_amp,
    ensures
        r == rescaled(d as int, from_amp as int, to_amp as int),
        -to_amp <= r <= to_amp,
{
    let m: i64 = if d < 0 {
        -d
    } else {
        d
    };
    proof {
        lemma_round_div_bounds(m as int, from_amp as int, to_amp as int);
        assert(from_amp * to_amp <= AMP_LIMIT * AMP_LIMIT) by (nonlinear_arith)
            requires
                0 < from_amp <= AMP_LIMIT,
                0 < to_amp <= AMP_LIMIT,
        ;
    }
    let q: i64 = (2 * (m * to_amp) + from_amp) / (2 * from_amp);
    if d < 0 {
        -q
    } else {
        q
    }
}

/// `d` saturated to `[-amp, amp]`.
pub fn saturate_excursion(d: i64, amp: i64) -> (r: i64)
    requires
        0 < amp,
    ensures
        r == saturate(d as int, amp as int),
{
    if d < -amp {
        -amp
    } else if d > amp {
        amp
    } else {
        d
    }
}

/// Converts `value` from representation `A` to representation `B`: its
/// excursion is rescaled by the ratio of the two amps and placed around `B`'s
/// equilibrium. Equilibrium, peak and trough map onto their counterparts.
pub fn convert<A: SampleValue, B: SampleValue>(value: A) -> (r: B)
    ensures
        r.level() == mid_of(B::representation()) + rescaled(
            excursion_of(value.level(), A::representation()),
            amp_of(A::representation()),
            amp_of(B::representation()),
        ),
{
    B::from_excursion(rescale(value.excursion(), A::amplitude(), B::amplitude()))
}

} // verus!
