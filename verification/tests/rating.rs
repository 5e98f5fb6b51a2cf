use media_api::rating::{Rating, FIVE_BITS, NEGATIVE_ZERO_BITS};

fn rating(value: f64) -> Rating {
    Rating::from_bits(value.to_bits())
}

#[test]
fn rating_keeps_its_bits() {
    let bits = 3.75f64.to_bits();
    assert_eq!(Rating::from_bits(bits).to_bits(), bits);
    assert_eq!(Rating::from_bits(bits).bits, bits);
    assert_eq!(f64::from_bits(rating(4.25).to_bits()), 4.25);
}

#[test]
fn rating_constants_are_the_bits_of_five_and_of_negative_zero() {
    assert_eq!(FIVE_BITS, 5.0f64.to_bits());
    assert_eq!(NEGATIVE_ZERO_BITS, (-0.0f64).to_bits());
}

#[test]
fn rating_scale_includes_both_ends() {
    assert!(rating(0.0).is_in_scale());
    assert!(rating(5.0).is_in_scale());
    assert!(rating(2.5).is_in_scale());
    assert!(rating(-0.0).is_in_scale());
    assert!(rating(f64::MIN_POSITIVE).is_in_scale());
    assert!(rating(5e-324).is_in_scale());
}

#[test]
fn rating_scale_excludes_what_lies_outside() {
    assert!(!rating(5.000000000000001).is_in_scale());
    assert!(!rating(5.1).is_in_scale());
    assert!(!rating(-0.1).is_in_scale());
    assert!(!rating(-5e-324).is_in_scale());
    assert!(!rating(100.0).is_in_scale());
    assert!(!rating(f64::INFINITY).is_in_scale());
    assert!(!rating(f64::NEG_INFINITY).is_in_scale());
    assert!(!rating(f64::NAN).is_in_scale());
    assert!(!rating(-f64::NAN).is_in_scale());
}

#[test]
fn rating_below_top_excludes_five() {
    assert!(rating(0.0).is_below_top());
    assert!(rating(-0.0).is_below_top());
    assert!(rating(4.999999999999999).is_below_top());
    assert!(!rating(5.0).is_below_top());
    assert!(!rating(7.0).is_below_top());
    assert!(!rating(-1.0).is_below_top());
    assert!(!rating(f64::NAN).is_below_top());
}

#[test]
fn rating_scale_agrees_with_the_comparison_of_doubles() {
    let samples = [
        0.0, -0.0, 1e-300, 0.5, 1.0, 2.0, 3.3, 4.0, 4.9, 5.0, 5.0000001, 6.0, 1e300, -1e-300,
        -0.5, -5.0, f64::MAX, f64::MIN, f64::INFINITY, f64::NEG_INFINITY, f64::EPSILON,
    ];
    for value in samples {
        assert_eq!(rating(value).is_in_scale(), (0.0..=5.0).contains(&value), "{}", value);
        assert_eq!(rating(value).is_below_top(), (0.0..5.0).contains(&value), "{}", value);
    }
}

#[test]
fn rating_scale_agrees_with_the_range_validator_on_numbers() {
    let samples = [0.0, -0.0, 0.1, 2.5, 5.0, 5.5, -0.5, 1e9, -1e9, 4.999, f64::INFINITY];
    for value in samples {
        assert_eq!(
            rating(value).is_in_scale(),
            validator::validate_range(value, Some(0.0), Some(5.0)),
            "{}",
            value
        );
    }
}
