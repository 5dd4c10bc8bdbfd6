use name_sanitizer::text::{decimal_string, two_digit_string};

#[test]
fn numbers_are_written_in_decimal() {
    assert_eq!(decimal_string(0), "0");
    assert_eq!(decimal_string(7), "7");
    assert_eq!(decimal_string(10), "10");
    assert_eq!(decimal_string(1234567890), "1234567890");
    assert_eq!(decimal_string(u64::MAX), "18446744073709551615");
}

#[test]
fn decimal_agrees_with_the_standard_form() {
    for n in [0u64, 1, 9, 10, 11, 99, 100, 101, 999, 1000, 65535, 4294967296, u64::MAX - 1] {
        assert_eq!(decimal_string(n), n.to_string());
    }
}

#[test]
fn one_digit_gets_a_leading_zero() {
    assert_eq!(two_digit_string(0), "00");
    assert_eq!(two_digit_string(5), "05");
    assert_eq!(two_digit_string(9), "09");
}

#[test]
fn two_digits_and_more_are_left_alone() {
    assert_eq!(two_digit_string(10), "10");
    assert_eq!(two_digit_string(59), "59");
    assert_eq!(two_digit_string(123), "123");
    assert_eq!(two_digit_string(u32::MAX), "4294967295");
}
