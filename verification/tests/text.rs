use frame_core::text::{decimal_string, digit_str, push_decimal, push_fixed3};

#[test]
fn digits_have_their_own_text() {
    let all: Vec<&str> = (0u8..10).map(digit_str).collect();
    assert_eq!(all, vec!["0", "1", "2", "3", "4", "5", "6", "7", "8", "9"]);
}

#[test]
fn decimal_string_has_no_leading_zeros() {
    assert_eq!(decimal_string(0), "0");
    assert_eq!(decimal_string(7), "7");
    assert_eq!(decimal_string(10), "10");
    assert_eq!(decimal_string(1002003), "1002003");
    assert_eq!(decimal_string(u64::MAX), "18446744073709551615");
}

#[test]
fn push_decimal_appends() {
    let mut s = String::from("n = ");
    push_decimal(&mut s, 42);
    assert_eq!(s, "n = 42");
}

#[test]
fn push_fixed3_writes_three_places() {
    let mut s = String::new();
    push_fixed3(&mut s, 1500);
    assert_eq!(s, "1.500");
    let mut s = String::new();
    push_fixed3(&mut s, 0);
    assert_eq!(s, "0.000");
    let mut s = String::new();
    push_fixed3(&mut s, 7);
    assert_eq!(s, "0.007");
    let mut s = String::new();
    push_fixed3(&mut s, 123456);
    assert_eq!(s, "123.456");
}

#[test]
fn push_fixed3_writes_the_sign() {
    let mut s = String::new();
    push_fixed3(&mut s, -1);
    assert_eq!(s, "-0.001");
    let mut s = String::new();
    push_fixed3(&mut s, -2050);
    assert_eq!(s, "-2.050");
}

#[test]
fn push_fixed3_at_the_ends_of_the_range() {
    let mut s = String::new();
    push_fixed3(&mut s, i64::MAX);
    assert_eq!(s, "9223372036854775.807");
    let mut s = String::new();
    push_fixed3(&mut s, i64::MIN);
    assert_eq!(s, "-9223372036854775.808");
}
