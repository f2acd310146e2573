use kmoni::decimal::parse_decimal;
use kmoni::decimal::Decimal;
use kmoni::record::parse_depth;
use kmoni::record::DecodeError;
use kmoni::text::parse_u32;
use kmoni::timestamp::parse_compact;
use kmoni::timestamp::parse_slash;
use kmoni::timestamp::Timestamp;

fn dec(negative: bool, mantissa: u64, scale: u32) -> Decimal {
    Decimal { negative, mantissa, scale }
}

#[test]
fn decimal_parses_plain_and_fractional() {
    assert_eq!(Some(dec(false, 1415, 1)), parse_decimal("141.5"));
    assert_eq!(Some(dec(false, 372, 1)), parse_decimal("37.2"));
    assert_eq!(Some(dec(false, 2, 0)), parse_decimal("2"));
    assert_eq!(Some(dec(true, 325, 2)), parse_decimal("-3.25"));
    assert_eq!(Some(dec(false, 5, 1)), parse_decimal("0.5"));
    // As an exact value: 141.5 is 1415 tenths.
    let d = parse_decimal("141.5").unwrap();
    assert_eq!(141.5_f64, d.mantissa as f64 / 10_f64.powi(d.scale as i32));
}

#[test]
fn decimal_rejects_malformed_text() {
    assert_eq!(None, parse_decimal(""));
    assert_eq!(None, parse_decimal("-"));
    assert_eq!(None, parse_decimal("."));
    assert_eq!(None, parse_decimal("1."));
    assert_eq!(None, parse_decimal(".5"));
    assert_eq!(None, parse_decimal("1.2.3"));
    assert_eq!(None, parse_decimal("12a"));
    assert_eq!(None, parse_decimal("--1"));
}

#[test]
fn unsigned_parses_with_leading_zeros() {
    assert_eq!(Some(2), parse_u32("2"));
    assert_eq!(Some(42), parse_u32("0042"));
    assert_eq!(Some(4294967295), parse_u32("4294967295"));
}

#[test]
fn unsigned_rejects_overflow_and_junk() {
    assert_eq!(None, parse_u32(""));
    assert_eq!(None, parse_u32("4294967296"));
    assert_eq!(None, parse_u32("99999999999999999999999"));
    assert_eq!(None, parse_u32("-1"));
    assert_eq!(None, parse_u32("1 "));
}

#[test]
fn depth_requires_km_suffix() {
    assert_eq!(Ok(20), parse_depth("20km"));
    assert_eq!(Ok(0), parse_depth("0km"));
    assert_eq!(Err(DecodeError::UnitSuffixMissing), parse_depth("20"));
    assert_eq!(Err(DecodeError::UnitSuffixMissing), parse_depth(""));
    assert_eq!(Err(DecodeError::UnitSuffixMissing), parse_depth("20mi"));
    assert_eq!(Err(DecodeError::NotNumeric), parse_depth("km"));
    assert_eq!(Err(DecodeError::NotNumeric), parse_depth("deepkm"));
}

#[test]
fn slash_format_parses_exactly() {
    assert_eq!(
        Some(Timestamp { year: 2023, month: 5, day: 21, hour: 16, minute: 3, second: 57 }),
        parse_slash("2023/05/21 16:03:57")
    );
    assert_eq!(None, parse_slash("2023/05/21 16:03"));
    assert_eq!(None, parse_slash("2023-05-21 16:03:57"));
    assert_eq!(None, parse_slash("2023/13/21 16:03:57"));
    assert_eq!(None, parse_slash("2023/02/30 16:03:57"));
    assert_eq!(None, parse_slash("2023/05/21 24:03:57"));
}

#[test]
fn compact_format_parses_exactly() {
    assert_eq!(
        Some(Timestamp { year: 2023, month: 5, day: 21, hour: 16, minute: 3, second: 57 }),
        parse_compact("20230521160357")
    );
    // Leap-year day: valid in 2024, invalid in 2023.
    assert_eq!(
        Some(Timestamp { year: 2024, month: 2, day: 29, hour: 0, minute: 0, second: 0 }),
        parse_compact("20240229000000")
    );
    assert_eq!(None, parse_compact("20230229000000"));
    assert_eq!(None, parse_compact("2023052116035"));
    assert_eq!(None, parse_compact("20230521s60357"));
}
