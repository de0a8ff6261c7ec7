use sfetch::text::{decimal_string, push_decimal};

#[test]
fn decimal_of_zero_is_a_single_digit() {
    assert_eq!(decimal_string(0), "0");
}

#[test]
fn decimal_has_no_padding() {
    assert_eq!(decimal_string(7), "7");
    assert_eq!(decimal_string(10), "10");
    assert_eq!(decimal_string(1_000_000), "1000000");
    assert_eq!(decimal_string(9_876_543_210), "9876543210");
}

#[test]
fn decimal_of_the_largest_number() {
    assert_eq!(decimal_string(u64::MAX), "18446744073709551615");
}

#[test]
fn decimal_is_appended() {
    let mut out = String::from("n=");
    push_decimal(&mut out, 42);
    push_decimal(&mut out, 0);
    assert_eq!(out, "n=420");
}
