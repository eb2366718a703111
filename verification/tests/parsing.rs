//! The reply parsers and formatters on their own.

use mx_series::parse::{
    ends_with_off, fields, parse_i32, parse_milli, parse_onoff, parse_pair_milli, parse_protection,
    parse_u8, parse_unit_milli,
};
use mx_series::connection::trim;

#[test]
fn parse_u8_accepts_register_range() {
    assert_eq!(parse_u8("0"), Some(0));
    assert_eq!(parse_u8("255"), Some(255));
    assert_eq!(parse_u8("007"), Some(7));
    assert_eq!(parse_u8("256"), None);
    assert_eq!(parse_u8(""), None);
    assert_eq!(parse_u8("1a"), None);
    assert_eq!(parse_u8("-1"), None);
}

#[test]
fn parse_i32_accepts_signed_codes() {
    assert_eq!(parse_i32("100"), Some(100));
    assert_eq!(parse_i32("-12"), Some(-12));
    assert_eq!(parse_i32("0"), Some(0));
    assert_eq!(parse_i32("2147483647"), Some(2147483647));
    assert_eq!(parse_i32("2147483648"), None);
    assert_eq!(parse_i32("--1"), None);
    assert_eq!(parse_i32(""), None);
}

#[test]
fn parse_milli_scales_to_thousandths() {
    assert_eq!(parse_milli("1.234"), Some(1234));
    assert_eq!(parse_milli("30.50"), Some(30500));
    assert_eq!(parse_milli("0.5"), Some(500));
    assert_eq!(parse_milli("5"), Some(5000));
    assert_eq!(parse_milli("0.010"), Some(10));
    assert_eq!(parse_milli("1.2345"), None);
    assert_eq!(parse_milli("1."), None);
    assert_eq!(parse_milli(".5"), None);
    assert_eq!(parse_milli("1.2.3"), None);
    assert_eq!(parse_milli("abc"), None);
}

#[test]
fn parse_unit_milli_strips_the_unit() {
    assert_eq!(parse_unit_milli("1.234A", 'A'), Some(1234));
    assert_eq!(parse_unit_milli("5.000V", 'V'), Some(5000));
    assert_eq!(parse_unit_milli("5.000", 'V'), None);
    assert_eq!(parse_unit_milli("", 'V'), None);
}

#[test]
fn fields_splits_on_whitespace_runs() {
    let f = fields("I1  0.500");
    assert_eq!(f.len(), 2);
    assert_eq!(f[0], "I1");
    assert_eq!(f[1], "0.500");
    assert_eq!(fields("  ").len(), 0);
    assert_eq!(fields("a b c").len(), 3);
}

#[test]
fn parse_pair_milli_takes_the_second_field() {
    assert_eq!(parse_pair_milli("I1 0.500"), Some(500));
    assert_eq!(parse_pair_milli("0.500"), None);
    assert_eq!(parse_pair_milli("I1 0.500 x"), None);
}

#[test]
fn protection_replies_distinguish_off_and_value() {
    assert_eq!(parse_protection("OCP1 OFF"), Some(None));
    assert_eq!(parse_protection("ocp1 Off"), Some(None));
    assert_eq!(parse_protection("OCP1 1.500"), Some(Some(1500)));
    assert_eq!(parse_protection("nonsense here extra"), None);
}

#[test]
fn ends_with_off_is_case_insensitive() {
    assert!(ends_with_off("OVP1 OFF"));
    assert!(ends_with_off("ovp1 off"));
    assert!(!ends_with_off("OVP1 1.5"));
    assert!(!ends_with_off("of"));
}

#[test]
fn parse_onoff_reads_single_digits() {
    assert_eq!(parse_onoff("1"), Some(true));
    assert_eq!(parse_onoff("0"), Some(false));
    assert_eq!(parse_onoff("2"), None);
    assert_eq!(parse_onoff("10"), None);
}

#[test]
fn trim_strips_terminators_and_spaces() {
    assert_eq!(trim("1.234A\r\n"), "1.234A");
    assert_eq!(trim("  x  "), "x");
    assert_eq!(trim("\r\n"), "");
    assert_eq!(trim("a b"), "a b");
}
