use rate_units::gcd::gcd_u64;
use rate_units::rate::{Extensions, Hertz, Kilohertz, Megahertz};
use rate_units::units::{ConversionError, MyTryFrom, MyTryInto, Unit};

#[test]
fn gcd_of_zero_and_value() {
    assert_eq!(gcd_u64(0, 0), 0);
    assert_eq!(gcd_u64(0, 7), 7);
    assert_eq!(gcd_u64(12, 0), 12);
}

#[test]
fn gcd_exact_values() {
    assert_eq!(gcd_u64(48, 18), 6);
    assert_eq!(gcd_u64(12, 8), 4);
    assert_eq!(gcd_u64(17, 5), 1);
    assert_eq!(gcd_u64(1_000_000, 1_000), 1_000);
    assert_eq!(gcd_u64(u64::MAX, u64::MAX), u64::MAX);
    assert_eq!(gcd_u64(1 << 63, 1 << 62), 1 << 62);
    assert_eq!(gcd_u64(3 << 40, 9 << 20), 3 << 20);
}

#[test]
fn gcd_reduces_to_coprime_terms() {
    let (a, b) = (84u64, 36u64);
    let g = gcd_u64(a, b);
    assert_eq!(g, 12);
    assert_eq!(a % g, 0);
    assert_eq!(b % g, 0);
    assert_eq!(gcd_u64(a / g, b / g), 1);
}

#[test]
fn scale_resolution_kilohertz_from_megahertz() {
    assert_eq!(Unit::<u32, 1_000, 1>::scale_factor_u64::<1_000_000, 1>(), (1_000, 1));
    assert_eq!(Unit::<u32, 1_000, 1>::scale_factor::<1_000_000, 1>(), Some((1_000, 1)));
    assert_eq!(Unit::<u32, 1_000_000, 1>::scale_factor_u64::<1_000, 1>(), (1, 1_000));
}

#[test]
fn narrow_resolver_fails_on_wide_ratio() {
    let wide = Unit::<u32, 1, 4_294_967_295>::scale_factor_u64::<4_294_967_295, 1>();
    assert_eq!(wide, (4_294_967_295u64 * 4_294_967_295u64, 1));
    assert_eq!(Unit::<u32, 1, 4_294_967_295>::scale_factor::<4_294_967_295, 1>(), None);
    let r = <Unit<u32, 1, 4_294_967_295> as MyTryFrom<Unit<u32, 4_294_967_295, 1>>>::try_from(
        Unit::new(1u32),
    );
    assert_eq!(r.map(|u| u.integer()), Err(ConversionError::ConversionFailure));
    let w = <Unit<u64, 1, 4_294_967_295> as MyTryFrom<Unit<u32, 4_294_967_295, 1>>>::try_from(
        Unit::new(1u32),
    );
    assert_eq!(w.map(|u| u.integer()), Ok(4_294_967_295u64 * 4_294_967_295u64));
}

#[test]
fn same_scale_conversion_is_identity() {
    let a = Unit::<u32, 1_000, 1>::new(u32::MAX);
    let r = <Unit<u32, 1_000, 1> as MyTryFrom<Unit<u32, 1_000, 1>>>::try_from(a);
    assert_eq!(r.map(|u| u.integer()), Ok(u32::MAX));
    let b = Unit::<u64, 3, 7>::new(u64::MAX);
    let r = <Unit<u64, 3, 7> as MyTryFrom<Unit<u64, 3, 7>>>::try_from(b);
    assert_eq!(r.map(|u| u.integer()), Ok(u64::MAX));
    let r = <Unit<u64, 3, 7> as MyTryFrom<Unit<u32, 3, 7>>>::try_from(Unit::new(42u32));
    assert_eq!(r.map(|u| u.integer()), Ok(42u64));
    let r = <Unit<u32, 3, 7> as MyTryFrom<Unit<u64, 3, 7>>>::try_from(Unit::new(42u64));
    assert_eq!(r.map(|u| u.integer()), Ok(42u32));
}

#[test]
fn same_scale_narrowing_of_large_value_overflows() {
    let r = <Unit<u32, 1, 1> as MyTryFrom<Unit<u64, 1, 1>>>::try_from(Unit::new(1u64 << 32));
    assert_eq!(r.map(|u| u.integer()), Err(ConversionError::Overflow));
}

#[test]
fn coarser_scale_truncates_toward_zero() {
    let r = <Unit<u32, 1_000, 1> as MyTryFrom<Unit<u32, 1, 1>>>::try_from(Unit::new(1_999u32));
    assert_eq!(r.map(|u| u.integer()), Ok(1));
    let r: Result<Unit<u64, 7, 1>, ConversionError> = MyTryInto::try_into(Unit::<u64, 2, 1>::new(10));
    assert_eq!(r.map(|u| u.integer()), Ok(2));
}

#[test]
fn zero_scale_constant_is_div_by_zero() {
    let r = <Unit<u32, 0, 1> as MyTryFrom<Unit<u32, 1, 1>>>::try_from(Unit::new(5u32));
    assert_eq!(r.map(|u| u.integer()), Err(ConversionError::DivByZero));
    let r = <Unit<u64, 1, 1> as MyTryFrom<Unit<u64, 1, 0>>>::try_from(Unit::new(5u64));
    assert_eq!(r.map(|u| u.integer()), Err(ConversionError::DivByZero));
}

#[test]
fn wide_product_overflows() {
    let r = <Unit<u64, 1, 1> as MyTryFrom<Unit<u64, 1_000, 1>>>::try_from(Unit::new(u64::MAX));
    assert_eq!(r.map(|u| u.integer()), Err(ConversionError::Overflow));
    let r = <Unit<u32, 1, 1> as MyTryFrom<Unit<u64, 1_000, 1>>>::try_from(Unit::new(5_000_000u64));
    assert_eq!(r.map(|u| u.integer()), Err(ConversionError::Overflow));
    let r = <Unit<u32, 1, 1> as MyTryFrom<Unit<u64, 1_000, 1>>>::try_from(Unit::new(5_000u64));
    assert_eq!(r.map(|u| u.integer()), Ok(5_000_000u32));
}

#[test]
fn hertz_equals_kilohertz_unit() {
    assert!(Unit::<u32, 1, 1>::new(1_000) == Unit::<u32, 1_000, 1>::new(1));
    assert!(Unit::<u32, 1, 1>::new(1_001) != Unit::<u32, 1_000, 1>::new(1));
    assert!(Unit::<u64, 1, 1>::new(1_000) == Unit::<u32, 1_000, 1>::new(1));
    assert!(Unit::<u32, 1_000, 1>::new(1) == Unit::<u64, 1, 1>::new(1_999));
}

#[test]
fn megahertz_to_hertz() {
    let r = <Hertz<u32> as TryFrom<Megahertz<u32>>>::try_from(Megahertz::new(1u32));
    assert_eq!(r.map(|h| h.integer()), Ok(1_000_000));
}

#[test]
fn kilohertz_to_hertz() {
    let r = <Hertz<u32> as TryFrom<Kilohertz<u32>>>::try_from(Kilohertz::new(5u32));
    assert_eq!(r.map(|h| h.integer()), Ok(5_000));
}

#[test]
fn megahertz_to_kilohertz_overflow_boundary() {
    let r = <Kilohertz<u32> as TryFrom<Megahertz<u32>>>::try_from(Megahertz::new(4_300_000u32));
    assert_eq!(r.map(|k| k.integer()), Err(ConversionError::Overflow));
    let r = <Kilohertz<u64> as TryFrom<Megahertz<u32>>>::try_from(Megahertz::new(4_300_000u32));
    assert_eq!(r.map(|k| k.integer()), Ok(4_300_000_000u64));
}

#[test]
fn failed_conversion_compares_unequal() {
    let a = Unit::<u32, 1, 1>::new(5_032_704);
    let b = Unit::<u32, 1_000, 1>::new(4_300_000);
    let into_a = <Unit<u32, 1, 1> as MyTryFrom<Unit<u32, 1_000, 1>>>::try_from(b);
    assert_eq!(into_a.map(|u| u.integer()), Err(ConversionError::Overflow));
    assert!(!(a == b));
    assert!(!(b == a));
    let c = Unit::<u32, 1_000, 1>::new(5);
    let d = Unit::<u64, 1, 1>::new(u64::MAX);
    assert!(!(c == d));
}

#[test]
fn widening_conversions() {
    let r = <Kilohertz<u32> as MyTryFrom<Hertz<u32>>>::try_from(Hertz::new(1_999u32));
    assert_eq!(r.map(|k| k.integer()), Ok(1));
    let r = <Megahertz<u64> as MyTryFrom<Kilohertz<u32>>>::try_from(Kilohertz::new(2_500u32));
    assert_eq!(r.map(|m| m.integer()), Ok(2u64));
    let r = <Megahertz<u32> as MyTryFrom<Hertz<u64>>>::try_from(Hertz::new(u64::MAX));
    assert_eq!(r.map(|m| m.integer()), Err(ConversionError::Overflow));
    let r = <Megahertz<u64> as MyTryFrom<Hertz<u64>>>::try_from(Hertz::new(u64::MAX));
    assert_eq!(r.map(|m| m.integer()), Ok(u64::MAX / 1_000_000));
}

#[test]
fn hertz_equality() {
    assert!(Hertz::new(5u32) == Hertz::new(5u32));
    assert!(Hertz::new(5u32) != Hertz::new(6u32));
    assert!(Hertz::new(u64::MAX) == Hertz::new(u64::MAX));
}

#[test]
fn suffix_constructors() {
    assert_eq!(7u32.Hz().integer(), 7);
    assert_eq!(8u32.kHz().integer(), 8);
    assert_eq!(9u32.MHz().integer(), 9);
    assert_eq!(Kilohertz::new(3u64).integer(), 3);
}

#[test]
fn infallible_widening_with_from() {
    assert_eq!(Kilohertz::<u32>::from(Hertz::new(1_999u32)).integer(), 1);
    assert_eq!(Megahertz::<u64>::from(Hertz::new(u64::MAX)).integer(), u64::MAX / 1_000_000);
    assert_eq!(Megahertz::<u64>::from(Kilohertz::new(4_300_000u32)).integer(), 4_300);
    assert_eq!(Megahertz::<u32>::from(Kilohertz::new(999u32)).integer(), 0);
    let k: Kilohertz<u64> = Hertz::new(5_000u32).into();
    assert_eq!(k.integer(), 5);
}

#[test]
fn narrow_conversion_multiplies_in_wide_width() {
    let r = <Unit<u32, 2, 1> as MyTryFrom<Unit<u32, 3, 1>>>::try_from(Unit::new(1u32 << 31));
    assert_eq!(r.map(|u| u.integer()), Ok(3_221_225_472u32));
    let r = <Unit<u32, 2, 1> as MyTryFrom<Unit<u32, 3, 1>>>::try_from(Unit::new(u32::MAX));
    assert_eq!(r.map(|u| u.integer()), Err(ConversionError::Overflow));
}

#[test]
fn equality_across_frequency_units() {
    assert!(Hertz::new(1000u32) == Kilohertz::new(1u32));
    assert!(Kilohertz::new(1u32) == Hertz::new(1000u32));
    assert!(Hertz::new(1001u32) != Kilohertz::new(1u32));
    assert!(Kilohertz::new(1u32) == Hertz::new(1999u32));
    assert!(Hertz::new(2_000_000u64) == Megahertz::new(2u32));
    assert!(Megahertz::new(2u32) == Hertz::new(2_000_000u64));
    assert!(Kilohertz::new(3_000u32) == Megahertz::new(3u64));
    assert!(Megahertz::new(3u64) == Kilohertz::new(3_000u32));
    assert!(!(Hertz::new(0u32) == Megahertz::new(5_000u32)));
}
