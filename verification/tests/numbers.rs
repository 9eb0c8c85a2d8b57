//! Parsing of the provider's decimal numeric strings.

use alpha_vantage::decimal::{parse_decimal, Decimal};

#[test]
fn plain_and_fractional_numerals_parse_exactly() {
    assert_eq!(
        parse_decimal("361.99000000"),
        Some(Decimal { mantissa: 36199000000, scale: 8, neg: false })
    );
    assert_eq!(parse_decimal("0"), Some(Decimal { mantissa: 0, scale: 0, neg: false }));
    assert_eq!(parse_decimal("42"), Some(Decimal { mantissa: 42, scale: 0, neg: false }));
    assert_eq!(parse_decimal("0.02"), Some(Decimal { mantissa: 2, scale: 2, neg: false }));
    assert_eq!(parse_decimal("-2.5"), Some(Decimal { mantissa: 25, scale: 1, neg: true }));
}

#[test]
fn malformed_numerals_are_refused() {
    assert_eq!(parse_decimal(""), None);
    assert_eq!(parse_decimal("-"), None);
    assert_eq!(parse_decimal("."), None);
    assert_eq!(parse_decimal("1."), None);
    assert_eq!(parse_decimal(".5"), None);
    assert_eq!(parse_decimal("1.2.3"), None);
    assert_eq!(parse_decimal("12a3"), None);
    assert_eq!(parse_decimal("1e3"), None);
    assert_eq!(parse_decimal(" 1"), None);
}

#[test]
fn oversized_numerals_are_refused() {
    // one digit more than the largest mantissa
    let too_big = "3402823669209384634633746074317682114550";
    assert_eq!(parse_decimal(too_big), None);
    // the largest mantissa itself fits
    let max = "340282366920938463463374607431768211455";
    assert_eq!(
        parse_decimal(max),
        Some(Decimal { mantissa: u128::MAX, scale: 0, neg: false })
    );
}

#[test]
fn zero_decimal_is_the_default() {
    assert_eq!(Decimal::default(), Decimal { mantissa: 0, scale: 0, neg: false });
    assert_eq!(Decimal::zero(), Decimal::default());
}
