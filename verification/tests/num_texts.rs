//! Tests for numeral-text recognition and lenient integer reading.

use queryer::ast::{AstExpr, AstOffset, AstValue};
use queryer::convert::{limit_value, offset_value};
use queryer::num::{float_text_ok, parse_i64_text, parse_usize_text};

fn number(text: &str) -> AstExpr {
    AstExpr::Value(AstValue::Number(text.to_string()))
}

#[test]
fn decimal_numerals_are_recognized() {
    for good in [
        "0", "500", "3.14", "1.", ".5", "+7", "-7", "1e10", "1.5E-3", "+.5e+2", "2E6", "10e0",
    ] {
        assert!(float_text_ok(good), "{} should be a numeral", good);
    }
    for bad in [
        "", ".", "+", "-", "e5", "1e", "1e+", "abc", "1.2.3", "1e2e3", "1,5", " 1", "1 ", "--1",
        "'abc'", "inf", "nan",
    ] {
        assert!(!float_text_ok(bad), "{} should not be a numeral", bad);
    }
}

#[test]
fn signed_integers_read_exactly() {
    assert_eq!(parse_i64_text("10"), Some(10));
    assert_eq!(parse_i64_text("+5"), Some(5));
    assert_eq!(parse_i64_text("-3"), Some(-3));
    assert_eq!(parse_i64_text("0"), Some(0));
    assert_eq!(parse_i64_text("9223372036854775807"), Some(i64::MAX));
    assert_eq!(parse_i64_text("-9223372036854775808"), Some(i64::MIN));
    assert_eq!(parse_i64_text("9223372036854775808"), None);
    assert_eq!(parse_i64_text("-9223372036854775809"), None);
    assert_eq!(parse_i64_text(""), None);
    assert_eq!(parse_i64_text("12a"), None);
    assert_eq!(parse_i64_text("1.5"), None);
    assert_eq!(parse_i64_text("-"), None);
}

#[test]
fn unsigned_integers_read_exactly() {
    assert_eq!(parse_usize_text("10"), Some(10));
    assert_eq!(parse_usize_text("+7"), Some(7));
    assert_eq!(parse_usize_text("0"), Some(0));
    assert_eq!(parse_usize_text("-1"), None);
    assert_eq!(parse_usize_text(""), None);
    assert_eq!(parse_usize_text("1.5"), None);
    assert_eq!(parse_usize_text("184467440737095516150"), None);
}

#[test]
fn offset_reads_leniently() {
    assert_eq!(offset_value(AstOffset { value: number("5") }), 5);
    assert_eq!(offset_value(AstOffset { value: number("-3") }), -3);
    assert_eq!(offset_value(AstOffset { value: number("1.5") }), 0);
    assert_eq!(
        offset_value(AstOffset { value: AstExpr::Identifier("x".to_string()) }),
        0
    );
}

#[test]
fn limit_reads_leniently() {
    assert_eq!(limit_value(number("10")), Some(10));
    assert_eq!(limit_value(number("0")), Some(0));
    assert_eq!(limit_value(number("-1")), None);
    assert_eq!(limit_value(number("1.5")), None);
    assert_eq!(limit_value(AstExpr::Wildcard), None);
}
