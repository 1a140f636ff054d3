//! The capability interface of a sample type.
use core::ops::{Add, Div, Mul, Sub};
use vstd::prelude::*;
use crate::model::{
    amp_of, converted_level, excursion_of, flipped_level, mid_of, peak_of, saturate, trough_of,
    Representation, AMP_LIMIT,
};

verus! {

/// A type that stores the samples of one representation, seen through the
/// integer it stores.
pub trait SampleValue: Sized {
    /// The representation this type stores.
    spec fn representation() -> Representation;

    /// The integer this value stores.
    spec fn level(self) -> int;

    /// `amp` as a plain integer.
    fn amplitude() -> (r: i64)
        ensures
            r == amp_of(Self::representation()),
            0 < r <= AMP_LIMIT,
    ;

    /// Signed distance from equilibrium, saturated to `[-amp, amp]`.
    fn excursion(self) -> (r: i64)
        ensures
            r == excursion_of(self.level(), Self::representation()),
    ;

    /// The sample at excursion `d` from equilibrium, `d` saturated to
    /// `[-amp, amp]` first.
    fn from_excursion(d: i64) -> (r: Self)
        ensures
            r.level() == mid_of(Self::representation()) + saturate(
                d as int,
                amp_of(Self::representation()),
            ),
    ;
}

/// A sample representation: its descriptor constants, conversion from every
/// other representation, polarity flip and the arithmetic of its primitive.
pub trait Sample:
    SampleValue +
    FlipSample +
    Copy +
    Add<Output = Self> +
    Sub<Output = Self> +
    Mul<Output = Self> +
    Div<Output = Self> +
    FromSample<u8> +
    FromSample<i8> +
    FromSample<u16> +
    FromSample<i16> +
    FromSample<u32> +
    FromSample<i32> {
    /// Equilibrium, the value of silence.
    fn mid() -> (r: Self)
        ensures
            r.level() == mid_of(Self::representation()),
    ;

    /// Distance from equilibrium to the peak.
    fn amp() -> (r: Self)
        ensures
            r.level() == amp_of(Self::representation()),
    ;

    /// Largest positive excursion.
    fn peak() -> (r: Self)
        ensures
            r.level() == peak_of(Self::representation()),
    ;

    /// Largest negative excursion, the mirror image of `peak` under `flip`.
    fn trough() -> (r: Self)
        ensures
            r.level() == trough_of(Self::representation()),
    ;
}

/// Polarity inversion.
pub trait FlipSample: SampleValue {
    fn flip(self) -> (r: Self)
        ensures
            r.level() == flipped_level(self.level(), Self::representation()),
    ;
}

/// Conversion of a value into any sample representation.
pub trait IntoSample: SampleValue {
    fn into_sample<S: Sample>(self) -> (r: S)
        ensures
            r.level() == converted_level(
                self.level(),
                Self::representation(),
                S::representation(),
            ),
    ;
}

/// Conversion from samples of representation `T`.
pub trait FromSample<T: SampleValue>: SampleValue {
    fn from_sample(value: T) -> (r: Self)
        ensures
            r.level() == converted_level(
                value.level(),
                T::representation(),
                Self::representation(),
            ),
    ;
}

} // verus!
