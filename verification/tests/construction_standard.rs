use arithmos::standard::{GreekNumeral, MAX};
use arithmos::OutOfRangeError;

#[test]
fn lib_test_greek_numeral_new() {
    assert_eq!(GreekNumeral::new(0).unwrap().as_u32(), 0_u32);
    assert_eq!(GreekNumeral::new(1).unwrap().as_u32(), 1_u32);
    assert_eq!(GreekNumeral::new(1_u8.into()).unwrap().as_u32(), 1_u32);
    assert_eq!(GreekNumeral::new(1_u32).unwrap().as_u32(), 1_u32);
    assert_eq!(GreekNumeral::new(42).unwrap().as_u32(), 42_u32);
    assert_eq!(GreekNumeral::new(9_999).unwrap().as_u32(), 9_999_u32);
    assert_eq!(GreekNumeral::new(MAX).unwrap().as_u32(), 9_999_u32);
    assert!(matches!(GreekNumeral::new(10_000), Err(OutOfRangeError)));
    assert!(matches!(GreekNumeral::new(u32::MAX), Err(OutOfRangeError)));
}

#[test]
fn lib_test_try_from_one() {
    let one = GreekNumeral::new(1).unwrap();
    assert_eq!(GreekNumeral::try_from(1_u8), Ok(one));
    assert_eq!(GreekNumeral::try_from(1_u16), Ok(one));
    assert_eq!(GreekNumeral::try_from(1_u32), Ok(one));
    assert_eq!(GreekNumeral::try_from(1_u64), Ok(one));
    assert_eq!(GreekNumeral::try_from(1_u128), Ok(one));
    assert_eq!(GreekNumeral::try_from(1_usize), Ok(one));
    assert_eq!(GreekNumeral::try_from(1_i8), Ok(one));
    assert_eq!(GreekNumeral::try_from(1_i16), Ok(one));
    assert_eq!(GreekNumeral::try_from(1_i32), Ok(one));
    assert_eq!(GreekNumeral::try_from(1_i64), Ok(one));
    assert_eq!(GreekNumeral::try_from(1_i128), Ok(one));
}

#[test]
fn construction_succeeds_across_standard_range() {
    for v in 0..=9_999_u32 {
        assert_eq!(GreekNumeral::new(v).unwrap().as_u32(), v);
    }
}

#[test]
fn standard_range_boundaries() {
    assert!(GreekNumeral::new(MAX).is_ok());
    assert!(matches!(GreekNumeral::new(MAX + 1), Err(OutOfRangeError)));
}

#[test]
fn conversions_reject_negative_inputs() {
    assert_eq!(GreekNumeral::try_from(-1_i8), Err(OutOfRangeError));
    assert_eq!(GreekNumeral::try_from(-1_i16), Err(OutOfRangeError));
    assert_eq!(GreekNumeral::try_from(-1_i32), Err(OutOfRangeError));
    assert_eq!(GreekNumeral::try_from(-1_i64), Err(OutOfRangeError));
    assert_eq!(GreekNumeral::try_from(-1_i128), Err(OutOfRangeError));
    assert_eq!(GreekNumeral::try_from(i64::MIN), Err(OutOfRangeError));
}

#[test]
fn standard_conversions_reject_values_above_bound() {
    assert_eq!(GreekNumeral::try_from(10_000_u16), Err(OutOfRangeError));
    assert_eq!(GreekNumeral::try_from(10_000_u64), Err(OutOfRangeError));
    assert_eq!(GreekNumeral::try_from(10_000_i32), Err(OutOfRangeError));
}
