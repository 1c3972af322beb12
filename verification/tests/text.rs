use input_macro::text::{push_decimal, push_signed_decimal};

fn decimal(n: u128) -> String {
    let mut out = String::new();
    push_decimal(&mut out, n);
    out
}

fn signed(n: i64) -> String {
    let mut out = String::new();
    push_signed_decimal(&mut out, n);
    out
}

#[test]
fn decimal_numerals() {
    assert_eq!(decimal(0), "0");
    assert_eq!(decimal(7), "7");
    assert_eq!(decimal(10), "10");
    assert_eq!(decimal(1234567890), "1234567890");
    assert_eq!(decimal(u128::MAX), "340282366920938463463374607431768211455");
}

#[test]
fn signed_numerals() {
    assert_eq!(signed(0), "0");
    assert_eq!(signed(-1), "-1");
    assert_eq!(signed(42), "42");
    assert_eq!(signed(i64::MIN), "-9223372036854775808");
    assert_eq!(signed(i64::MAX), "9223372036854775807");
}

#[test]
fn numerals_are_appended() {
    let mut out = String::from("x=");
    push_signed_decimal(&mut out, -305);
    push_decimal(&mut out, 9);
    assert_eq!(out, "x=-3059");
}

#[test]
fn numerals_agree_with_the_standard_formatting() {
    for n in [0u128, 9, 10, 99, 100, 101, 65535, 4294967295, 4294967296] {
        assert_eq!(decimal(n), format!("{}", n));
    }
    for n in [-100i64, -10, -9, 9, 10, 2147483647, -2147483648] {
        assert_eq!(signed(n), format!("{}", n));
    }
}
