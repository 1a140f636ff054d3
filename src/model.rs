//! The mathematical model of sample values.
//!
//! Every integer sample is seen through its *level*, the mathematical integer
//! it stores, and its *excursion*, the signed distance of that level from the
//! representation's equilibrium, saturated to the symmetric range
//! `[-amp, amp]`. Conversions and polarity flips are stated over levels.
use vstd::prelude::*;

verus! {

/// The integer representations a sample can be stored in.
pub enum Representation {
    U8,
    I8,
    U16,
    I16,
    U32,
    I32,
}

/// The largest `amp` of any representation; excursions never exceed it.
pub const AMP_LIMIT: i64 = 2147483647;

/// Smallest value the representation can store.
pub open spec fn min_of(r: Representation) -> int {
    match r {
        Representation::U8 => 0,
        Representation::I8 => -128,
        Representation::U16 => 0,
        Representation::I16 => -32768,
        Representation::U32 => 0,
        Representation::I32 => -2147483648,
    }
}

/// Largest value the representation can store.
pub open spec fn max_of(r: Representation) -> int {
    match r {
        Representation::U8 => 255,
        Representation::I8 => 127,
        Representation::U16 => 65535,
        Representation::I16 => 32767,
        Representation::U32 => 4294967295,
        Representation::I32 => 2147483647,
    }
}

/// Equilibrium (silence): `amp + 1` for unsigned representations, `0` for signed ones.
pub open spec fn mid_of(r: Representation) -> int {
    match r {
        Representation::U8 => 128,
        Representation::U16 => 32768,
        Representation::U32 => 2147483648,
        _ => 0,
    }
}

/// Distance from equilibrium to the peak: `max / 2` for unsigned
/// representations, `max` for signed ones (the extra negative value of a
/// signed range lies outside the symmetric range).
pub open spec fn amp_of(r: Representation) -> int {
    match r {
        Representation::U8 | Representation::I8 => 127,
        Representation::U16 | Representation::I16 => 32767,
        Representation::U32 | Representation::I32 => 2147483647,
    }
}

pub open spec fn peak_of(r: Representation) -> int {
    mid_of(r) + amp_of(r)
}

pub open spec fn trough_of(r: Representation) -> int {
    mid_of(r) - amp_of(r)
}

/// `d` saturated to `[-amp, amp]`.
pub open spec fn saturate(d: int, amp: int) -> int {
    if d < -amp {
        -amp
    } else if d > amp {
        amp
    } else {
        d
    }
}

/// The excursion of level `x`: its distance from equilibrium, saturated to
/// the symmetric range. Only the extra native minimum is ever saturated.
pub open spec fn excursion_of(x: int, r: Representation) -> int {
    saturate(x - mid_of(r), amp_of(r))
}

/// `n / den` rounded to the nearest integer, halves rounded up (`n >= 0`, `den > 0`).
pub open spec fn round_div(n: int, den: int) -> int {
    (2 * n + den) / (2 * den)
}

/// Excursion `d` scaled by `to_amp / from_amp`, rounded to the nearest
/// integer with halves rounded away from zero.
pub open spec fn rescaled(d: int, from_amp: int, to_amp: int) -> int {
    if d < 0 {
        -round_div(-d * to_amp, from_amp)
    } else {
        round_div(d * to_amp, from_amp)
    }
}

/// The level that level `x` of representation `a` converts to in
/// representation `b`: identity within a representation; otherwise the
/// excursion is rescaled by the ratio of the amps and placed around `b`'s
/// equilibrium.
pub open spec fn converted_level(x: int, a: Representation, b: Representation) -> int {
    if a == b {
        x
    } else {
        mid_of(b) + rescaled(excursion_of(x, a), amp_of(a), amp_of(b))
    }
}

/// Polarity inversion of level `x`: reflection across equilibrium. The extra
/// native minimum, which has no mirror image, is left in place.
pub open spec fn flipped_level(x: int, r: Representation) -> int {
    if x == min_of(r) {
        x
    } else {
        2 * mid_of(r) - x
    }
}

} // verus!
