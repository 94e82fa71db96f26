//! The checks the core applies to an oracle answer: recency, price
//! conversion, and exponent capture.

use optn::oracle::{exponent_magnitude, price_magnitude, validate_price_age, PriceData};
use optn::{PRICE_MAXIMUM_AGE, PRICE_MAXIMUM_AGE_STAGING};

fn sample(price: i64, exponent: i32, updated_at: i64) -> PriceData {
    PriceData { price, exponent, updated_at }
}

#[test]
fn recency_boundary() {
    let now = 1_000;
    assert!(validate_price_age(&sample(1, -8, now), now, PRICE_MAXIMUM_AGE));
    assert!(validate_price_age(&sample(1, -8, now - 5), now, PRICE_MAXIMUM_AGE));
    assert!(!validate_price_age(&sample(1, -8, now - 6), now, PRICE_MAXIMUM_AGE));
    assert!(validate_price_age(&sample(1, -8, now - 7_200), now, PRICE_MAXIMUM_AGE_STAGING));
    assert!(!validate_price_age(&sample(1, -8, now - 7_201), now, PRICE_MAXIMUM_AGE_STAGING));
}

#[test]
fn recency_handles_extreme_times() {
    // the subtraction that the rule compares against must not wrap
    assert!(validate_price_age(&sample(1, -8, 0), i64::MIN, u64::MAX));
    assert!(!validate_price_age(&sample(1, -8, i64::MIN), i64::MAX, 0));
}

#[test]
fn price_conversion_rejects_negative() {
    assert_eq!(price_magnitude(&sample(50_000, -8, 0)), Some(50_000));
    assert_eq!(price_magnitude(&sample(0, -8, 0)), Some(0));
    assert_eq!(price_magnitude(&sample(-1, -8, 0)), None);
    assert_eq!(price_magnitude(&sample(i64::MAX, -8, 0)), Some(i64::MAX as u64));
}

#[test]
fn exponent_capture() {
    assert_eq!(exponent_magnitude(&sample(1, -8, 0)), Some(8));
    assert_eq!(exponent_magnitude(&sample(1, 8, 0)), Some(8));
    assert_eq!(exponent_magnitude(&sample(1, 0, 0)), Some(0));
    assert_eq!(exponent_magnitude(&sample(1, -255, 0)), Some(255));
    assert_eq!(exponent_magnitude(&sample(1, 255, 0)), Some(255));
    assert_eq!(exponent_magnitude(&sample(1, -256, 0)), None);
    assert_eq!(exponent_magnitude(&sample(1, i32::MIN, 0)), None);
}
