use baseunits_rs::time::Duration;
use baseunits_rs::util::DecimalNumber;
use baseunits_rs::util::Ratio;
use baseunits_rs::util::RoundingStrategy;
use rust_decimal::Decimal;
use std::str::FromStr;

fn number(text: &str) -> DecimalNumber {
    let d = Decimal::from_str(text).unwrap();
    DecimalNumber::new(d.mantissa(), d.scale()).unwrap()
}

fn decimal(d: DecimalNumber) -> Decimal {
    Decimal::from_i128_with_scale(d.to_mantissa(), d.to_scale())
}

#[test]
fn test_big_decimal_ratio() {
    let r3over2 = Ratio::new(number("3"), number("2")).unwrap();
    let result = r3over2.decimal_value(1, None).unwrap();
    assert_eq!(decimal(result), Decimal::from_str("1.5").unwrap());

    let r10over3 = Ratio::new(number("10"), number("3")).unwrap();
    let result = r10over3
        .decimal_value(3, Some(RoundingStrategy::ToZero))
        .unwrap();
    assert_eq!(decimal(result), Decimal::from_str("3.333").unwrap());

    let result = r10over3
        .decimal_value(3, Some(RoundingStrategy::AwayFromZero))
        .unwrap();
    assert_eq!(decimal(result), Decimal::from_str("3.334").unwrap());

    let r_many_digits = Ratio::new(number("9.001"), number("3")).unwrap();
    let result = r_many_digits
        .decimal_value(6, Some(RoundingStrategy::AwayFromZero))
        .unwrap();
    assert_eq!(decimal(result), Decimal::from_str("3.000334").unwrap());

    let result = r_many_digits
        .decimal_value(7, Some(RoundingStrategy::AwayFromZero))
        .unwrap();
    assert_eq!(decimal(result), Decimal::from_str("3.0003334").unwrap());

    let result = r_many_digits
        .decimal_value(7, Some(RoundingStrategy::MidpointAwayFromZero))
        .unwrap();
    assert_eq!(decimal(result), Decimal::from_str("3.0003333").unwrap());
}

#[test]
fn ratio_rejects_a_zero_denominator() {
    assert!(Ratio::new(number("1"), number("0")).is_none());
    assert!(Ratio::new(number("1"), number("0.000")).is_none());
    assert!(Ratio::new_i64(1, 0).is_none());
    assert!(Ratio::new_i64(0, 1).is_some());
    assert!(Ratio::new_checked(None, Some(number("1"))).is_none());
    assert!(Ratio::new_checked(Some(number("1")), None).is_none());
    assert!(Ratio::new_checked(Some(number("1")), Some(number("2"))).is_some());
}

#[test]
fn ratio_of_whole_numbers() {
    let r = Ratio::new_i64(10, 4).unwrap();
    assert_eq!(r.to_numerator(), DecimalNumber::from_i64(10));
    assert_eq!(r.to_denominator(), DecimalNumber::from_i64(4));
    assert_eq!(
        decimal(r.decimal_value(0, None).unwrap()),
        Decimal::from_str("2.5").unwrap()
    );
    assert_eq!(
        decimal(
            r.decimal_value(0, Some(RoundingStrategy::MidpointNearestEven))
                .unwrap()
        ),
        Decimal::from_str("2").unwrap()
    );
    assert_eq!(
        decimal(
            r.decimal_value(0, Some(RoundingStrategy::ToPositiveInfinity))
                .unwrap()
        ),
        Decimal::from_str("3").unwrap()
    );
}

#[test]
fn ratio_times() {
    let a = Ratio::new_i64(1, 2).unwrap();
    let b = Ratio::new_i64(3, 5).unwrap();
    let p = a.times(b).unwrap();
    assert_eq!(decimal(p.to_numerator()), Decimal::from(3));
    assert_eq!(decimal(p.to_denominator()), Decimal::from(10));
    let q = a.times_by_big_decimal(number("2.5")).unwrap();
    assert_eq!(decimal(q.to_numerator()), Decimal::from_str("2.5").unwrap());
    assert_eq!(decimal(q.to_denominator()), Decimal::from(2));
    let big = Ratio::new(
        DecimalNumber::new(79_228_162_514_264_337_593_543_950_335, 0).unwrap(),
        number("1"),
    )
    .unwrap();
    assert!(big.times(big).is_none());
    assert!(big.times_by_big_decimal(number("10")).is_none());
}

#[test]
fn decimal_number_range() {
    assert!(DecimalNumber::new(79_228_162_514_264_337_593_543_950_335, 28).is_some());
    assert!(DecimalNumber::new(-79_228_162_514_264_337_593_543_950_335, 0).is_some());
    assert!(DecimalNumber::new(79_228_162_514_264_337_593_543_950_336, 0).is_none());
    assert!(DecimalNumber::new(1, 29).is_none());
    let d = DecimalNumber::new(-15, 1).unwrap();
    assert_eq!(d.to_mantissa(), -15);
    assert_eq!(d.to_scale(), 1);
    assert!(!d.is_zero());
    assert!(DecimalNumber::from_i64(0).is_zero());
    assert_eq!(decimal(DecimalNumber::from_i64(-7)), Decimal::from(-7));
}

#[test]
fn decimal_number_arithmetic() {
    let six = number("6");
    let four = number("4");
    assert_eq!(
        decimal(six.checked_div(four).unwrap()),
        Decimal::from_str("1.5").unwrap()
    );
    assert!(six.checked_div(number("0")).is_none());
    assert_eq!(
        decimal(six.checked_mul(number("0.5")).unwrap()),
        Decimal::from(3)
    );
    assert_eq!(
        decimal(number("1.25").round_dp_with_strategy(1, RoundingStrategy::MidpointTowardZero)),
        Decimal::from_str("1.2").unwrap()
    );
    assert_eq!(
        decimal(number("-1.21").round_dp_with_strategy(1, RoundingStrategy::ToNegativeInfinity)),
        Decimal::from_str("-1.3").unwrap()
    );
    assert_eq!(
        number("1.2").round_dp_with_strategy(3, RoundingStrategy::ToZero),
        number("1.2")
    );
}

#[test]
fn duration_divided_by() {
    let r = Duration::hours(1).divided_by(Duration::minutes(30)).unwrap();
    assert_eq!(
        decimal(r.decimal_value(0, None).unwrap()),
        Decimal::from(2)
    );
    assert!(Duration::hours(1).divided_by(Duration::minutes(0)).is_none());
    let q = Duration::years(1).divided_by(Duration::quarters(1)).unwrap();
    assert_eq!(q.to_numerator(), DecimalNumber::from_i64(12));
    assert_eq!(q.to_denominator(), DecimalNumber::from_i64(3));
}

#[test]
fn ratio_gcd_and_reduce() {
    let g = Ratio::gcd(number("10"), number("4")).unwrap();
    assert_eq!(decimal(g), Decimal::from(2));
    let g = Ratio::gcd(number("1.5"), number("4.5")).unwrap();
    assert_eq!(decimal(g), Decimal::from_str("1.5").unwrap());
    let g = Ratio::gcd(number("7"), number("0")).unwrap();
    assert_eq!(decimal(g), Decimal::from(7));
    let r = Ratio::new_i64(10, 4).unwrap().reduce().unwrap();
    assert_eq!(decimal(r.to_numerator()), Decimal::from(5));
    assert_eq!(decimal(r.to_denominator()), Decimal::from(2));
    let r = Ratio::new(number("1.5"), number("4.5")).unwrap().reduce().unwrap();
    assert_eq!(decimal(r.to_numerator()), Decimal::from(1));
    assert_eq!(decimal(r.to_denominator()), Decimal::from(3));
    let zero = Ratio::new_i64(0, 4).unwrap().reduce().unwrap();
    assert_eq!(decimal(zero.to_numerator()), Decimal::from(0));
    assert_eq!(decimal(zero.to_denominator()), Decimal::from(1));
    let halved = Ratio::new_i64(10, 4)
        .unwrap()
        .divided_by_common(Some(number("2")))
        .unwrap();
    assert_eq!(decimal(halved.to_numerator()), Decimal::from(5));
    assert!(Ratio::new_i64(10, 4).unwrap().divided_by_common(None).is_none());
    assert_eq!(
        decimal(number("7").checked_rem(number("4")).unwrap()),
        Decimal::from(3)
    );
    assert!(number("7").checked_rem(number("0")).is_none());
}
