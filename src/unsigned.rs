//! Unsigned representations: equilibrium sits just above half range, the
//! trough is `1`, and `0` lies outside the symmetric range.
use vstd::prelude::*;
use crate::convert::saturate_excursion;
use crate::model::Representation;
use crate::traits::{FlipSample, Sample, SampleValue};

verus! {

impl SampleValue for u8 {
    open spec fn representation() -> Representation {
        Representation::U8
    }

    open spec fn level(self) -> int {
        self as int
    }

    fn amplitude() -> i64 {
        Self::amp() as i64
    }

    fn excursion(self) -> i64 {
        saturate_excursion(self as i64 - Self::mid() as i64, Self::amplitude())
    }

    fn from_excursion(d: i64) -> u8 {
        let e = saturate_excursion(d, Self::amplitude());
        (Self::mid() as i64 + e) as u8
    }
}

impl Sample for u8 {
    fn mid() -> u8 {
        Self::amp() + 1
    }

    fn amp() -> u8 {
        u8::MAX / 2
    }

    fn peak() -> u8 {
        u8::MAX
    }

    fn trough() -> u8 {
        1
    }
}

impl FlipSample for u8 {
    fn flip(self) -> u8 {
        let mid = Self::mid();
        if self == 0 {
            self
        } else if self < mid {
            (mid - self) + mid
        } else {
            mid - (self - mid)
        }
    }
}

impl SampleValue for u16 {
    open spec fn representation() -> Representation {
        Representation::U16
    }

    open spec fn level(self) -> int {
        self as int
    }

    fn amplitude() -> i64 {
        Self::amp() as i64
    }

    fn excursion(self) -> i64 {
        saturate_excursion(self as i64 - Self::mid() as i64, Self::amplitude())
    }

    fn from_excursion(d: i64) -> u16 {
        let e = saturate_excursion(d, Self::amplitude());
        (Self::mid() as i64 + e) as u16
    }
}

impl Sample for u16 {
    fn mid() -> u16 {
        Self::amp() + 1
    }

    fn amp() -> u16 {
        u16::MAX / 2
    }

    fn peak() -> u16 {
        u16::MAX
    }

    fn trough() -> u16 {
        1
    }
}

impl FlipSample for u16 {
    fn flip(self) -> u16 {
        let mid = Self::mid();
        if self == 0 {
            self
        } else if self < mid {
            (mid - self) + mid
        } else {
            mid - (self - mid)
        }
    }
}

impl SampleValue for u32 {
    open spec fn representation() -> Representation {
        Representation::U32
    }

    open spec fn level(self) -> int {
        self as int
    }

    fn amplitude() -> i64 {
        Self::amp() as i64
    }

    fn excursion(self) -> i64 {
        saturate_excursion(self as i64 - Self::mid() as i64, Self::amplitude())
    }

    fn from_excursion(d: i64) -> u32 {
        let e = saturate_excursion(d, Self::amplitude());
        (Self::mid() as i64 + e) as u32
    }
}

impl Sample for u32 {
    fn mid() -> u32 {
        Self::amp() + 1
    }

    fn amp() -> u32 {
        u32::MAX / 2
    }

    fn peak() -> u32 {
        u32::MAX
    }

    fn trough() -> u32 {
        1
    }
}

impl FlipSample for u32 {
    fn flip(self) -> u32 {
        let mid = Self::mid();
        if self == 0 {
            self
        } else if self < mid {
            (mid - self) + mid
        } else {
            mid - (self - mid)
        }
    }
}

} // verus!
