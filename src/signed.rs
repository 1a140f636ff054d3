//! Signed representations: equilibrium is `0`, the range is trimmed to the
//! symmetric `[-MAX, MAX]`, and the native minimum lies outside it.
use vstd::prelude::*;
use crate::convert::saturate_excursion;
use crate::model::Representation;
use crate::traits::{FlipSample, Sample, SampleValue};

verus! {

impl SampleValue for i8 {
    open spec fn representation() -> Representation {
        Representation::I8
    }

    open spec fn level(self) -> int {
        self as int
    }

    fn amplitude() -> i64 {
        Self::amp() as i64
    }

    fn excursion(self) -> i64 {
        saturate_excursion(self as i64, Self::amplitude())
    }

    fn from_excursion(d: i64) -> i8 {
        saturate_excursion(d, Self::amplitude()) as i8
    }
}

impl Sample for i8 {
    fn mid() -> i8 {
        0
    }

    fn amp() -> i8 {
        i8::MAX
    }

    fn peak() -> i8 {
        i8::MAX
    }

    fn trough() -> i8 {
        -i8::MAX
    }
}

impl FlipSample for i8 {
    fn flip(self) -> i8 {
        if self == i8::MIN {
            self
        } else {
            -self
        }
    }
}

impl SampleValue for i16 {
    open spec fn representation() -> Representation {
        Representation::I16
    }

    open spec fn level(self) -> int {
        self as int
    }

    fn amplitude() -> i64 {
        Self::amp() as i64
    }

    fn excursion(self) -> i64 {
        saturate_excursion(self as i64, Self::amplitude())
    }

    fn from_excursion(d: i64) -> i16 {
        saturate_excursion(d, Self::amplitude()) as i16
    }
}

impl Sample for i16 {
    fn mid() -> i16 {
        0
    }

    fn amp() -> i16 {
        i16::MAX
    }

    fn peak() -> i16 {
        i16::MAX
    }

    fn trough() -> i16 {
        -i16::MAX
    }
}

impl FlipSample for i16 {
    fn flip(self) -> i16 {
        if self == i16::MIN {
            self
        } else {
            -self
        }
    }
}

impl SampleValue for i32 {
    open spec fn representation() -> Representation {
        Representation::I32
    }

    open spec fn level(self) -> int {
        self as int
    }

    fn amplitude() -> i64 {
        Self::amp() as i64
    }

    fn excursion(self) -> i64 {
        saturate_excursion(self as i64, Self::amplitude())
    }

    fn from_excursion(d: i64) -> i32 {
        saturate_excursion(d, Self::amplitude()) as i32
    }
}

impl Sample for i32 {
    fn mid() -> i32 {
        0
    }

    fn amp() -> i32 {
        i32::MAX
    }

    fn peak() -> i32 {
        i32::MAX
    }

    fn trough() -> i32 {
        -i32::MAX
    }
}

impl FlipSample for i32 {
    fn flip(self) -> i32 {
        if self == i32::MIN {
            self
        } else {
            -self
        }
    }
}

} // verus!
