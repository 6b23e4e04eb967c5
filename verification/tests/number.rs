use azul_layout::number::{at_least_zero, sat_add, sat_sub, saturate, scale, MAX_LENGTH};
use azul_layout::style::Dimension;
use azul_layout::Number;

#[test]
fn undefined_plus_anything_is_undefined() {
    assert_eq!(Number::Undefined.add(Number::Defined(3)), Number::Undefined);
    assert_eq!(Number::Defined(3).add(Number::Undefined), Number::Undefined);
    assert_eq!(Number::Undefined.add(Number::Undefined), Number::Undefined);
}

#[test]
fn defined_numbers_add_and_subtract() {
    assert_eq!(Number::Defined(3).add(Number::Defined(4)), Number::Defined(7));
    assert_eq!(
        Number::Defined(MAX_LENGTH).add(Number::Defined(1)),
        Number::Defined(MAX_LENGTH)
    );
    assert_eq!(
        Number::Defined(i64::MIN).add(Number::Defined(i64::MIN)),
        Number::Defined(-MAX_LENGTH)
    );
}

#[test]
fn min_and_max_prefer_the_defined_side() {
    assert_eq!(Number::Undefined.min(Number::Defined(5)), Number::Defined(5));
    assert_eq!(Number::Defined(5).min(Number::Undefined), Number::Defined(5));
    assert_eq!(Number::Undefined.max(Number::Defined(5)), Number::Defined(5));
    assert_eq!(Number::Defined(5).max(Number::Undefined), Number::Defined(5));
    assert_eq!(Number::Undefined.min(Number::Undefined), Number::Undefined);
    assert_eq!(Number::Undefined.max(Number::Undefined), Number::Undefined);
    assert_eq!(Number::Defined(2).min(Number::Defined(5)), Number::Defined(2));
    assert_eq!(Number::Defined(2).max(Number::Defined(5)), Number::Defined(5));
}

#[test]
fn get_or_chooses_the_default_only_where_undefined() {
    assert_eq!(Number::Undefined.get_or(9), 9);
    assert_eq!(Number::Defined(0).get_or(9), 0);
    assert!(Number::Defined(0).is_defined());
    assert!(!Number::Undefined.is_defined());
    assert_eq!(Number::undefined(), Number::Undefined);
    assert_eq!(Number::default(), Number::Undefined);
}

#[test]
fn defined_saturates() {
    assert_eq!(Number::defined(12), Number::Defined(12));
    assert_eq!(Number::defined(i64::MAX), Number::Defined(MAX_LENGTH));
    assert_eq!(Number::defined(i64::MIN), Number::Defined(-MAX_LENGTH));
}

#[test]
fn saturating_arithmetic() {
    assert_eq!(saturate(5), 5);
    assert_eq!(saturate(i128::MAX), MAX_LENGTH);
    assert_eq!(saturate(i128::MIN), -MAX_LENGTH);
    assert_eq!(sat_add(i64::MAX, i64::MAX), MAX_LENGTH);
    assert_eq!(sat_add(2, -5), -3);
    assert_eq!(sat_sub(i64::MIN, i64::MAX), -MAX_LENGTH);
    assert_eq!(sat_sub(2, -5), 7);
    assert_eq!(at_least_zero(-1), 0);
    assert_eq!(at_least_zero(1), 1);
}

#[test]
fn scale_rounds_toward_zero() {
    assert_eq!(scale(7, 1, 2), 3);
    assert_eq!(scale(-7, 1, 2), -3);
    assert_eq!(scale(7, -1, 2), -3);
    assert_eq!(scale(100, 96, 72), 133);
    assert_eq!(scale(5, 3, 0), 0);
    assert_eq!(scale(5, 3, -1), 0);
    assert_eq!(scale(i64::MAX, i64::MAX, 1), MAX_LENGTH);
    assert_eq!(scale(i64::MIN, i64::MAX, 1), -MAX_LENGTH);
    assert_eq!(scale(i64::MIN, i64::MIN, i64::MAX), MAX_LENGTH);
}

#[test]
fn dimension_resolution() {
    let reference = Number::Defined(400_000);
    let none = Number::Undefined;
    assert_eq!(Dimension::Pixels(12_000).resolve(reference, none), Number::Defined(12_000));
    assert_eq!(Dimension::Pixels(12_000).resolve(none, none), Number::Defined(12_000));
    assert_eq!(Dimension::Percent(50_000).resolve(reference, none), Number::Defined(200_000));
    assert_eq!(Dimension::Percent(50_000).resolve(none, none), Number::Undefined);
    assert_eq!(Dimension::Percent(12_500).resolve(Number::Defined(1000), none), Number::Defined(125));
    assert_eq!(Dimension::Auto.resolve(reference, none), Number::Undefined);
    assert_eq!(Dimension::Auto.resolve(reference, Number::Defined(7)), Number::Defined(7));
    assert_eq!(Dimension::Undefined.resolve(reference, Number::Defined(7)), Number::Undefined);
    assert_eq!(Dimension::Pixels(i64::MAX).resolve(none, none), Number::Defined(MAX_LENGTH));
    assert!(Dimension::Pixels(0).is_defined());
    assert!(Dimension::Percent(0).is_defined());
    assert!(!Dimension::Auto.is_defined());
    assert!(!Dimension::Undefined.is_defined());
    assert_eq!(Dimension::default(), Dimension::Undefined);
}
