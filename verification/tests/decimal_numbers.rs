use card_ledger::decimal::{Decimal, MAX_MANTISSA, MAX_SCALE};

fn dec(num: i64, scale: u32) -> Decimal {
    Decimal::new(num, scale).unwrap()
}

#[test]
fn new_accepts_every_scale_up_to_28() {
    assert!(Decimal::new(1, 28).is_some());
    assert!(Decimal::new(1, 29).is_none());
    assert_eq!(MAX_SCALE, 28);
}

#[test]
fn new_keeps_mantissa_and_scale() {
    let d = dec(-3141, 3);
    assert_eq!(d.mantissa(), -3141);
    assert_eq!(d.scale(), 3);
}

#[test]
fn from_parts_takes_mantissas_of_96_bits() {
    assert!(Decimal::from_parts(MAX_MANTISSA, 0).is_some());
    assert!(Decimal::from_parts(-MAX_MANTISSA, 28).is_some());
    assert!(Decimal::from_parts(MAX_MANTISSA + 1, 0).is_none());
    assert!(Decimal::from_parts(-MAX_MANTISSA - 1, 0).is_none());
    assert!(Decimal::from_parts(0, 29).is_none());
}

#[test]
fn from_parts_agrees_with_rust_decimal() {
    let ours = Decimal::from_parts(79_228_162_514_264_337_593_543_950_335, 5).unwrap();
    let theirs = rust_decimal::Decimal::from_i128_with_scale(ours.mantissa(), ours.scale());
    assert_eq!(theirs.mantissa(), ours.mantissa());
    assert_eq!(theirs.scale(), ours.scale());
    assert_eq!(theirs, rust_decimal::Decimal::MAX / rust_decimal::Decimal::from(100_000));
}

#[test]
fn zero_is_neither_positive_nor_negative() {
    let z = Decimal::zero();
    assert_eq!(z.mantissa(), 0);
    assert_eq!(z.scale(), 0);
    assert!(!z.is_positive());
    assert!(!z.is_negative());
}

#[test]
fn sign_follows_the_mantissa() {
    assert!(dec(1, 28).is_positive());
    assert!(!dec(1, 28).is_negative());
    assert!(dec(-1, 0).is_negative());
    assert!(!dec(-1, 0).is_positive());
}

#[test]
fn le_orders_by_value_across_scales() {
    // 0.5 <= 0.50, 0.5 <= 1, 1 > 0.99, -0.5 < -0.01
    assert!(dec(5, 1).le(&dec(50, 2)));
    assert!(dec(50, 2).le(&dec(5, 1)));
    assert!(dec(5, 1).le(&dec(1, 0)));
    assert!(!dec(1, 0).le(&dec(99, 2)));
    assert!(dec(-5, 1).le(&dec(-1, 2)));
    assert!(!dec(-1, 2).le(&dec(-5, 1)));
    assert!(dec(-1, 0).le(&Decimal::zero()));
}

#[test]
fn le_orders_the_largest_numbers() {
    let max = Decimal::from_parts(MAX_MANTISSA, 0).unwrap();
    let tiny = Decimal::from_parts(1, 28).unwrap();
    let min = Decimal::from_parts(-MAX_MANTISSA, 0).unwrap();
    assert!(tiny.le(&max));
    assert!(!max.le(&tiny));
    assert!(min.le(&tiny));
    assert!(!tiny.le(&min));
}

#[test]
fn value_eq_ignores_trailing_zeros() {
    assert!(dec(1, 0).value_eq(&dec(100, 2)));
    assert!(dec(1100, 0).value_eq(&dec(110_000, 2)));
    assert!(!dec(1, 0).value_eq(&dec(101, 2)));
    assert!(Decimal::zero().value_eq(&dec(0, 7)));
    // The derived equality compares the representation.
    assert_ne!(dec(1, 0), dec(100, 2));
    assert_eq!(dec(100, 2), dec(100, 2));
}
