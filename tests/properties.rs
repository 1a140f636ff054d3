use audio_sample::convert::{convert, rescale};
use audio_sample::{FlipSample, FromSample, IntoSample, Sample, SampleValue};

#[test]
fn descriptor_constants() {
    assert_eq!((u8::mid(), u8::amp(), u8::peak(), u8::trough()), (128, 127, 255, 1));
    assert_eq!((u16::mid(), u16::amp(), u16::peak(), u16::trough()), (32768, 32767, 65535, 1));
    assert_eq!(
        (u32::mid(), u32::amp(), u32::peak(), u32::trough()),
        (2147483648, 2147483647, 4294967295, 1)
    );
    assert_eq!((i8::mid(), i8::amp(), i8::peak(), i8::trough()), (0, 127, 127, -127));
    assert_eq!((i16::mid(), i16::amp(), i16::peak(), i16::trough()), (0, 32767, 32767, -32767));
    assert_eq!(
        (i32::mid(), i32::amp(), i32::peak(), i32::trough()),
        (0, 2147483647, 2147483647, -2147483647)
    );
    assert_eq!(u16::amplitude(), 32767);
    assert_eq!(i32::amplitude(), 2147483647);
}

#[test]
fn equilibrium_maps_to_equilibrium() {
    assert_eq!(128u8.into_sample::<u32>(), 2147483648);
    assert_eq!(0i16.into_sample::<u8>(), 128);
    assert_eq!(2147483648u32.into_sample::<i8>(), 0);
    assert_eq!(32768u16.into_sample::<u16>(), 32768);
}

#[test]
fn same_representation_is_identity() {
    for x in 0..=255u8 {
        assert_eq!(u8::from_sample(x), x);
    }
    for x in -128..=127i8 {
        assert_eq!(i8::from_sample(x), x);
    }
    assert_eq!(0u16.into_sample::<u16>(), 0);
    assert_eq!(i32::MIN.into_sample::<i32>(), i32::MIN);
}

#[test]
fn rescaling_rounds_to_nearest() {
    assert_eq!(129u8.into_sample::<u16>(), 33026);
    assert_eq!(127u8.into_sample::<u16>(), 32510);
    assert_eq!(32769u16.into_sample::<u8>(), 128);
    assert_eq!(33026u16.into_sample::<u8>(), 129);
    assert_eq!(200u8.into_sample::<i16>(), 18577);
    assert_eq!(1000000i32.into_sample::<i16>(), 15);
    assert_eq!(129u8.into_sample::<i32>(), 16909320);
    assert_eq!((-1i8).into_sample::<u32>(), 2147483648 - 16909320);
    assert_eq!(rescale(1, 127, 32767), 258);
    assert_eq!(rescale(-1, 127, 32767), -258);
    assert_eq!(rescale(0, 127, 32767), 0);
    assert_eq!(rescale(-127, 127, 32767), -32767);
    assert_eq!(convert::<u8, i16>(255), 32767);
    assert_eq!(convert::<i32, u16>(-2147483647), 1);
}

#[test]
fn widening_round_trip_is_exact() {
    for x in 1..=255u8 {
        assert_eq!(x.into_sample::<u16>().into_sample::<u8>(), x);
        assert_eq!(x.into_sample::<i16>().into_sample::<u8>(), x);
        assert_eq!(x.into_sample::<u32>().into_sample::<u8>(), x);
        assert_eq!(x.into_sample::<i8>().into_sample::<u8>(), x);
    }
    for x in -127..=127i8 {
        assert_eq!(x.into_sample::<i32>().into_sample::<i8>(), x);
        assert_eq!(x.into_sample::<u16>().into_sample::<i8>(), x);
    }
    for x in (1..=65535u16).step_by(97) {
        assert_eq!(x.into_sample::<u32>().into_sample::<u16>(), x);
        assert_eq!(x.into_sample::<i32>().into_sample::<u16>(), x);
    }
    assert_eq!(127u8.into_sample::<u32>().into_sample::<u8>(), 127);
}

#[test]
fn extra_native_minimum_saturates_to_trough() {
    assert_eq!(0u8.into_sample::<u16>(), 1);
    assert_eq!(0u8.into_sample::<i8>(), -127);
    assert_eq!((-128i8).into_sample::<i16>(), -32767);
    assert_eq!((-128i8).into_sample::<i16>().into_sample::<i8>(), -127);
    assert_eq!(i32::MIN.into_sample::<u8>(), 1);
    assert_eq!(0u8.excursion(), -127);
    assert_eq!((-128i8).excursion(), -127);
}

#[test]
fn from_excursion_saturates() {
    assert_eq!(u8::from_excursion(63), 191);
    assert_eq!(u8::from_excursion(190), 255);
    assert_eq!(u8::from_excursion(-127), 1);
    assert_eq!(u8::from_excursion(-1000), 1);
    assert_eq!(i16::from_excursion(i64::MIN), -32767);
    assert_eq!(i16::from_excursion(i64::MAX), 32767);
    assert_eq!(u32::from_excursion(0), 2147483648);
    assert_eq!(200u8.excursion(), 72);
    assert_eq!((-5i32).excursion(), -5);
}

#[test]
fn flip_is_an_involution() {
    for x in 0..=255u8 {
        assert_eq!(x.flip().flip(), x);
    }
    for x in -128..=127i8 {
        assert_eq!(x.flip().flip(), x);
    }
    for x in 0..=65535u16 {
        assert_eq!(x.flip().flip(), x);
    }
    assert_eq!(1u8.flip(), 255);
    assert_eq!(255u8.flip(), 1);
    assert_eq!(100u8.flip(), 156);
    assert_eq!(128u8.flip(), 128);
    assert_eq!(0u8.flip(), 0);
    assert_eq!(i8::MIN.flip(), i8::MIN);
    assert_eq!(5i16.flip(), -5);
    assert_eq!(0u32.flip(), 0);
    assert_eq!(3000000000u32.flip(), 1294967296);
}

#[test]
fn flip_commutes_with_conversion() {
    for x in 1..=255u8 {
        assert_eq!(x.flip().into_sample::<i16>(), x.into_sample::<i16>().flip());
    }
}
