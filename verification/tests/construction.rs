use arithmos::extended::{GreekNumeral, MAX};
use arithmos::OutOfRangeError;

#[test]
fn test_greek_numeral_new() {
    assert_eq!(GreekNumeral::new(0).unwrap().as_u32(), 0_u32);
    assert_eq!(GreekNumeral::new(1).unwrap().as_u32(), 1_u32);
    assert_eq!(GreekNumeral::new(1_u8.into()).unwrap().as_u32(), 1_u32);
    assert_eq!(GreekNumeral::new(1_u32).unwrap().as_u32(), 1_u32);
    assert_eq!(GreekNumeral::new(42).unwrap().as_u32(), 42_u32);
    assert_eq!(GreekNumeral::new(616).unwrap().as_u32(), 616_u32);
    assert_eq!(GreekNumeral::new(49_999).unwrap().as_u32(), 49_999_u32);
    assert_eq!(GreekNumeral::new(99_999).unwrap().as_u32(), 99_999_u32);
    assert_eq!(GreekNumeral::new(999_999).unwrap().as_u32(), 999_999_u32);
    assert_eq!(GreekNumeral::new(MAX).unwrap().as_u32(), 999_999_u32);
    assert!(matches!(GreekNumeral::new(1_000_000), Err(OutOfRangeError)));
    assert!(matches!(GreekNumeral::new(u32::MAX), Err(OutOfRangeError)));
}

#[test]
fn test_try_from_one() {
    let one = GreekNumeral::new(1).unwrap();
    assert_eq!(GreekNumeral::try_from(1_u8), Ok(one));
    assert_eq!(GreekNumeral::try_from(1_u16), Ok(one));
    assert_eq!(GreekNumeral::try_from(1_u32), Ok(one));
    assert_eq!(GreekNumeral::try_from(1_u64), Ok(one));
    assert_eq!(GreekNumeral::try_from(1_u128), Ok(one));
    assert_eq!(GreekNumeral::try_from(1_usize), Ok(one));
    assert_eq!(GreekNumeral::try_from(1_i8), Ok(one));
    assert_eq!(GreekNumeral::try_from(1_i16), Ok(one));
    assert_eq!(GreekNumeral::try_from(1_i32), Ok(one));
    assert_eq!(GreekNumeral::try_from(1_i64), Ok(one));
    assert_eq!(GreekNumeral::try_from(1_i128), Ok(one));
}

#[test]
fn extended_range_boundaries() {
    assert!(GreekNumeral::new(MAX).is_ok());
    assert!(matches!(GreekNumeral::new(MAX + 1), Err(OutOfRangeError)));
}

#[test]
fn extended_conversions_reject_values_above_bound() {
    assert_eq!(GreekNumeral::try_from(1_000_000_u64), Err(OutOfRangeError));
    assert_eq!(GreekNumeral::try_from(1_000_000_i64), Err(OutOfRangeError));
    assert_eq!(GreekNumeral::try_from(u128::MAX), Err(OutOfRangeError));
    assert_eq!(GreekNumeral::try_from(i128::MIN), Err(OutOfRangeError));
}

#[test]
fn conversion_entry_points_agree() {
    let direct = GreekNumeral::new(616).unwrap();
    assert_eq!(GreekNumeral::try_from(616_u16), Ok(direct));
    assert_eq!(GreekNumeral::try_from(616_u32), Ok(direct));
    assert_eq!(GreekNumeral::try_from(616_u64), Ok(direct));
    assert_eq!(GreekNumeral::try_from(616_u128), Ok(direct));
    assert_eq!(GreekNumeral::try_from(616_usize), Ok(direct));
    assert_eq!(GreekNumeral::try_from(616_i16), Ok(direct));
    assert_eq!(GreekNumeral::try_from(616_i32), Ok(direct));
    assert_eq!(GreekNumeral::try_from(616_i64), Ok(direct));
    assert_eq!(GreekNumeral::try_from(616_i128), Ok(direct));
    assert_eq!(direct.as_u32(), 616_u32);
}
