use session_engine::money::{
    push_amount, push_decimal, push_fixed_amount, push_fraction_amount, push_signed_decimal,
};

fn decimal(n: u64) -> String {
    let mut out = String::new();
    push_decimal(&mut out, n);
    out
}

fn amount(cents: u64) -> String {
    let mut out = String::new();
    push_amount(&mut out, cents);
    out
}

fn fixed(cents: u64) -> String {
    let mut out = String::new();
    push_fixed_amount(&mut out, cents);
    out
}

fn fraction(cents: u64) -> String {
    let mut out = String::new();
    push_fraction_amount(&mut out, cents);
    out
}

fn signed(n: i64) -> String {
    let mut out = String::new();
    push_signed_decimal(&mut out, n);
    out
}

#[test]
fn decimal_digits_of_small_and_large_numbers() {
    assert_eq!(decimal(0), "0");
    assert_eq!(decimal(7), "7");
    assert_eq!(decimal(10), "10");
    assert_eq!(decimal(1234567890), "1234567890");
    assert_eq!(decimal(u64::MAX), "18446744073709551615");
}

#[test]
fn decimal_is_appended_to_what_is_there() {
    let mut out = String::from("n=");
    push_decimal(&mut out, 42);
    assert_eq!(out, "n=42");
}

#[test]
fn amount_text_is_the_shortest_decimal() {
    assert_eq!(amount(4000), "40");
    assert_eq!(amount(1250), "12.5");
    assert_eq!(amount(1234), "12.34");
    assert_eq!(amount(5), "0.05");
    assert_eq!(amount(50), "0.5");
    assert_eq!(amount(0), "0");
    assert_eq!(amount(100), "1");
    assert_eq!(amount(235), "2.35");
    assert_eq!(amount(280), "2.8");
}

#[test]
fn fixed_amount_text_has_two_fraction_digits() {
    assert_eq!(fixed(500), "5.00");
    assert_eq!(fixed(1234), "12.34");
    assert_eq!(fixed(5), "0.05");
    assert_eq!(fixed(50), "0.50");
    assert_eq!(fixed(0), "0.00");
}

#[test]
fn fraction_amount_text_keeps_one_digit_for_whole_amounts() {
    assert_eq!(fraction(500), "5.0");
    assert_eq!(fraction(525), "5.25");
    assert_eq!(fraction(550), "5.5");
    assert_eq!(fraction(0), "0.0");
}

#[test]
fn signed_decimal_of_negative_numbers_and_extremes() {
    assert_eq!(signed(0), "0");
    assert_eq!(signed(17), "17");
    assert_eq!(signed(-17), "-17");
    assert_eq!(signed(i64::MIN), "-9223372036854775808");
    assert_eq!(signed(i64::MAX), "9223372036854775807");
}
