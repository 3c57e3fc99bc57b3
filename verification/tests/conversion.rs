//! The shared numeric conversion policy, exercised through a strategy.

use stock_ingest::errors::ParseError;
use stock_ingest::parser::Conversion;
use stock_ingest::strategies::concentration::ConcentrationStrategy;

#[test]
fn test_concentration_strategy_to_i32() {
    let strategy = ConcentrationStrategy {};
    let result = strategy.parse_i32_with_comma("1,845,919");
    assert!(result.is_ok());
    assert_eq!(result.unwrap(), 1845919);
}

#[test]
fn test_concentration_strategy_to_i64() {
    let strategy = ConcentrationStrategy {};
    let result = strategy.parse_i64_with_comma("1,845,919");
    assert!(result.is_ok());
    assert_eq!(result.unwrap(), 1845919);
}

#[test]
fn test_concentration_strategy_to_f32() {
    let strategy = ConcentrationStrategy {};
    let result = strategy.parse_decimal_with_comma("-1.05 ");
    assert!(result.is_ok());
    let d = result.unwrap();
    assert_eq!((d.mantissa, d.scale), (-105, 2));
    assert_eq!(d.mantissa as f32 / 10f32.powi(d.scale as i32), -1.05);
}

#[test]
fn test_concentration_strategy_to_usize() {
    let strategy = ConcentrationStrategy {};
    let result = strategy.parse_usize_with_comma("2");
    assert!(result.is_ok());
    assert_eq!(result.unwrap(), 2);
}

#[test]
fn separators_and_whitespace_are_stripped() {
    let strategy = ConcentrationStrategy {};
    assert_eq!(strategy.parse_i64_with_comma(" 1,845,919 ").unwrap(), 1845919);
    assert_eq!(strategy.parse_i64_with_comma("-2,500").unwrap(), -2500);
    assert_eq!(strategy.parse_i64_with_comma("+17").unwrap(), 17);
    let d = strategy.parse_decimal_with_comma("54.59").unwrap();
    assert_eq!((d.mantissa, d.scale), (5459, 2));
    let d2 = strategy.parse_decimal_with_comma("1,234.5").unwrap();
    assert_eq!((d2.mantissa, d2.scale), (12345, 1));
}

#[test]
fn garbage_is_a_conversion_error() {
    let strategy = ConcentrationStrategy {};
    let r = strategy.parse_i64_with_comma("0.32%");
    assert!(matches!(r, Err(ParseError::ConversionError(t)) if t == "0.32%"));
    let r2 = strategy.parse_decimal_with_comma("0.32%");
    assert!(r2.is_err());
    let r3 = strategy.parse_i32_with_comma("");
    assert!(r3.is_err());
    let r4 = strategy.parse_decimal_with_comma("1.2.3");
    assert!(r4.is_err());
    let r5 = strategy.parse_usize_with_comma("-2");
    assert!(r5.is_err());
}

#[test]
fn overflow_is_a_conversion_error() {
    let strategy = ConcentrationStrategy {};
    assert!(strategy.parse_i32_with_comma("2,147,483,648").is_err());
    assert_eq!(strategy.parse_i32_with_comma("2,147,483,647").unwrap(), i32::MAX);
    assert!(strategy.parse_i64_with_comma("9,223,372,036,854,775,808").is_err());
    assert_eq!(
        strategy.parse_i64_with_comma("-9,223,372,036,854,775,808").unwrap(),
        i64::MIN
    );
}
