//! Every ordered pair of representations: identity within one, the generic
//! conversion between two different ones.
use vstd::prelude::*;
use crate::convert::convert;
use crate::traits::{FromSample, IntoSample, Sample};

verus! {

impl IntoSample for u8 {
    fn into_sample<S: Sample>(self) -> S {
        S::from_sample(self)
    }
}

impl IntoSample for i8 {
    fn into_sample<S: Sample>(self) -> S {
        S::from_sample(self)
    }
}

impl IntoSample for u16 {
    fn into_sample<S: Sample>(self) -> S {
        S::from_sample(self)
    }
}

impl IntoSample for i16 {
    fn into_sample<S: Sample>(self) -> S {
        S::from_sample(self)
    }
}

impl IntoSample for u32 {
    fn into_sample<S: Sample>(self) -> S {
        S::from_sample(self)
    }
}

impl IntoSample for i32 {
    fn into_sample<S: Sample>(self) -> S {
        S::from_sample(self)
    }
}

impl FromSample<u8> for u8 {
    fn from_sample(value: u8) -> u8 {
        value
    }
}

impl FromSample<i8> for u8 {
    fn from_sample(value: i8) -> u8 {
        convert(value)
    }
}

impl FromSample<u16> for u8 {
    fn from_sample(value: u16) -> u8 {
        convert(value)
    }
}

impl FromSample<i16> for u8 {
    fn from_sample(value: i16) -> u8 {
        convert(value)
    }
}

impl FromSample<u32> for u8 {
    fn from_sample(value: u32) -> u8 {
        convert(value)
    }
}

impl FromSample<i32> for u8 {
    fn from_sample(value: i32) -> u8 {
        convert(value)
    }
}

impl FromSample<u8> for i8 {
    fn from_sample(value: u8) -> i8 {
        convert(value)
    }
}

impl FromSample<i8> for i8 {
    fn from_sample(value: i8) -> i8 {
        value
    }
}

impl FromSample<u16> for i8 {
    fn from_sample(value: u16) -> i8 {
        convert(value)
    }
}

impl FromSample<i16> for i8 {
    fn from_sample(value: i16) -> i8 {
        convert(value)
    }
}

impl FromSample<u32> for i8 {
    fn from_sample(value: u32) -> i8 {
        convert(value)
    }
}

impl FromSample<i32> for i8 {
    fn from_sample(value: i32) -> i8 {
        convert(value)
    }
}

impl FromSample<u8> for u16 {
    fn from_sample(value: u8) -> u16 {
        convert(value)
    }
}

impl FromSample<i8> for u16 {
    fn from_sample(value: i8) -> u16 {
        convert(value)
    }
}

impl FromSample<u16> for u16 {
    fn from_sample(value: u16) -> u16 {
        value
    }
}

impl FromSample<i16> for u16 {
    fn from_sample(value: i16) -> u16 {
        convert(value)
    }
}

impl FromSample<u32> for u16 {
    fn from_sample(value: u32) -> u16 {
        convert(value)
    }
}

impl FromSample<i32> for u16 {
    fn from_sample(value: i32) -> u16 {
        convert(value)
    }
}

impl FromSample<u8> for i16 {
    fn from_sample(value: u8) -> i16 {
        convert(value)
    }
}

impl FromSample<i8> for i16 {
    fn from_sample(value: i8) -> i16 {
        convert(value)
    }
}

impl FromSample<u16> for i16 {
    fn from_sample(value: u16) -> i16 {
        convert(value)
    }
}

impl FromSample<i16> for i16 {
    fn from_sample(value: i16) -> i16 {
        value
    }
}

impl FromSample<u32> for i16 {
    fn from_sample(value: u32) -> i16 {
        convert(value)
    }
}

impl FromSample<i32> for i16 {
    fn from_sample(value: i32) -> i16 {
        convert(value)
    }
}

impl FromSample<u8> for u32 {
    fn from_sample(value: u8) -> u32 {
        convert(value)
    }
}

impl FromSample<i8> for u32 {
    fn from_sample(value: i8) -> u32 {
        convert(value)
    }
}

impl FromSample<u16> for u32 {
    fn from_sample(value: u16) -> u32 {
        convert(value)
    }
}

impl FromSample<i16> for u32 {
    fn from_sample(value: i16) -> u32 {
        convert(value)
    }
}

impl FromSample<u32> for u32 {
    fn from_sample(value: u32) -> u32 {
        value
    }
}

impl FromSample<i32> for u32 {
    fn from_sample(value: i32) -> u32 {
        convert(value)
    }
}

impl FromSample<u8> for i32 {
    fn from_sample(value: u8) -> i32 {
        convert(value)
    }
}

impl FromSample<i8> for i32 {
    fn from_sample(value: i8) -> i32 {
        convert(value)
    }
}

impl FromSample<u16> for i32 {
    fn from_sample(value: u16) -> i32 {
        convert(value)
    }
}

impl FromSample<i16> for i32 {
    fn from_sample(value: i16) -> i32 {
        convert(value)
    }
}

impl FromSample<u32> for i32 {
    fn from_sample(value: u32) -> i32 {
        convert(value)
    }
}

impl FromSample<i32> for i32 {
    fn from_sample(value: i32) -> i32 {
        value
    }
}

} // verus!
