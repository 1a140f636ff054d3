//! Laws of the conversion algebra, stated over the model that the contracts
//! of `from_sample`, `into_sample` and `flip` use.
use vstd::prelude::*;
use crate::convert::{lemma_div_bracket, lemma_round_div_bounds};
use crate::model::{
    amp_of, converted_level, excursion_of, flipped_level, max_of, mid_of, min_of, peak_of,
    rescaled, round_div, trough_of, Representation,
};

verus! {

/// Rounding `k * den / den` gives back `k`.
pub proof fn lemma_round_div_exact(k: int, den: int)
    requires
        0 <= k,
        0 < den,
    ensures
        round_div(k * den, den) == k,
{
    let n = 2 * (k * den) + den;
    let q = n / (2 * den);
    lemma_div_bracket(n, 2 * den);
    assert(q == k) by (nonlinear_arith)
        requires
            (2 * den) * q <= n < (2 * den) * q + 2 * den,
            n == 2 * (k * den) + den,
            0 < den,
    ;
}

/// Scaling a magnitude up to a range at least as wide and back down again
/// restores it.
pub proof fn lemma_round_div_round_trip(m: int, lo: int, hi: int)
    requires
        0 <= m <= lo,
        0 < lo <= hi,
    ensures
        round_div(round_div(m * hi, lo) * lo, hi) == m,
        m > 0 ==> round_div(m * hi, lo) > 0,
{
    let up = round_div(m * hi, lo);
    lemma_round_div_bounds(m, lo, hi);
    lemma_div_bracket(2 * (m * hi) + lo, 2 * lo);
    assert((2 * lo) * up <= 2 * (m * hi) + lo < (2 * lo) * up + 2 * lo);
    assert(m > 0 ==> up > 0) by (nonlinear_arith)
        requires
            2 * (m * hi) + lo < (2 * lo) * up + 2 * lo,
            0 < lo <= hi,
            0 <= m,
    ;
    assert(0 <= up * lo) by (nonlinear_arith)
        requires
            0 <= up,
            0 < lo,
    ;
    let n = 2 * (up * lo) + hi;
    let down = n / (2 * hi);
    lemma_div_bracket(n, 2 * hi);
    if lo == hi {
        lemma_round_div_exact(m, lo);
        assert(m * hi == m * lo);
        lemma_round_div_exact(m, hi);
    } else {
        assert(down == m) by (nonlinear_arith)
            requires
                (2 * lo) * up <= 2 * (m * hi) + lo < (2 * lo) * up + 2 * lo,
                (2 * hi) * down <= n < (2 * hi) * down + 2 * hi,
                n == 2 * (up * lo) + hi,
                0 < lo < hi,
        ;
    }
}

/// An excursion rescaled into a representation of at least the same
/// amplitude and back again is unchanged.
pub proof fn lemma_rescaled_round_trip(d: int, lo: int, hi: int)
    requires
        -lo <= d <= lo,
        0 < lo <= hi,
    ensures
        -hi <= rescaled(d, lo, hi) <= hi,
        rescaled(rescaled(d, lo, hi), hi, lo) == d,
{
    let m = if d < 0 {
        -d
    } else {
        d
    };
    lemma_round_div_bounds(m, lo, hi);
    lemma_round_div_round_trip(m, lo, hi);
    if d < 0 {
        assert(-d * hi == m * hi);
    }
}

/// Equilibrium is representation independent: converting the equilibrium of
/// `a` into `b` gives the equilibrium of `b`.
pub proof fn lemma_equilibrium(a: Representation, b: Representation)
    ensures
        converted_level(mid_of(a), a, b) == mid_of(b),
{
    lemma_round_div_exact(0, amp_of(a));
    assert(0 * amp_of(b) == 0 * amp_of(a));
}

/// Peak converts to peak and trough to trough, between any two
/// representations.
pub proof fn lemma_peak_and_trough(a: Representation, b: Representation)
    ensures
        converted_level(peak_of(a), a, b) == peak_of(b),
        converted_level(trough_of(a), a, b) == trough_of(b),
{
    lemma_round_div_exact(amp_of(b), amp_of(a));
    assert(amp_of(a) * amp_of(b) == amp_of(b) * amp_of(a));
    assert(-(-amp_of(a)) * amp_of(b) == amp_of(b) * amp_of(a));
}

/// Flipping twice restores any value, and equilibrium is its own flip.
pub proof fn lemma_flip_involution(r: Representation, x: int)
    requires
        min_of(r) <= x <= max_of(r),
    ensures
        flipped_level(flipped_level(x, r), r) == x,
        flipped_level(mid_of(r), r) == mid_of(r),
{
}

/// Flip exchanges peak and trough.
pub proof fn lemma_flip_peak_trough(r: Representation)
    ensures
        flipped_level(peak_of(r), r) == trough_of(r),
        flipped_level(trough_of(r), r) == peak_of(r),
{
}

/// Converting a value into a representation of equal or greater precision
/// and back reproduces it exactly, for every value of the symmetric range.
pub proof fn lemma_round_trip(a: Representation, b: Representation, x: int)
    requires
        amp_of(a) <= amp_of(b),
        trough_of(a) <= x <= peak_of(a),
    ensures
        converted_level(converted_level(x, a, b), b, a) == x,
{
    if a != b {
        let d = x - mid_of(a);
        assert(excursion_of(x, a) == d);
        lemma_rescaled_round_trip(d, amp_of(a), amp_of(b));
    }
}

/// Conversion preserves polarity inversion: flipping then converting equals
/// converting then flipping, for every value of the symmetric range.
pub proof fn lemma_flip_commutes(a: Representation, b: Representation, x: int)
    requires
        trough_of(a) <= x <= peak_of(a),
    ensures
        converted_level(flipped_level(x, a), a, b) == flipped_level(converted_level(x, a, b), b),
{
    if a != b {
        let d = x - mid_of(a);
        let m = if d < 0 {
            -d
        } else {
            d
        };
        assert(excursion_of(x, a) == d);
        assert(excursion_of(flipped_level(x, a), a) == -d);
        lemma_round_div_bounds(m, amp_of(a), amp_of(b));
        assert(-d * amp_of(b) == m * amp_of(b) || d * amp_of(b) == m * amp_of(b));
        if d == 0 {
            lemma_round_div_exact(0, amp_of(a));
            assert(0 * amp_of(b) == 0 * amp_of(a));
        }
    }
}

} // verus!
