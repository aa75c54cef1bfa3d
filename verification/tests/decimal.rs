use codegen_x86::text::{decimal_i64, decimal_u64, push_decimal_i64, push_decimal_u64};

#[test]
fn zero_is_a_single_digit() {
    assert_eq!(decimal_u64(0), "0");
    assert_eq!(decimal_i64(0), "0");
}

#[test]
fn every_single_digit() {
    let expected = ["0", "1", "2", "3", "4", "5", "6", "7", "8", "9"];
    for (n, text) in expected.iter().enumerate() {
        assert_eq!(decimal_u64(n as u64), *text);
    }
}

#[test]
fn digits_come_out_most_significant_first() {
    assert_eq!(decimal_u64(10), "10");
    assert_eq!(decimal_u64(1234567890), "1234567890");
    assert_eq!(decimal_u64(100), "100");
}

#[test]
fn largest_unsigned() {
    assert_eq!(decimal_u64(u64::MAX), "18446744073709551615");
}

#[test]
fn negative_numbers_carry_a_minus_sign() {
    assert_eq!(decimal_i64(-1), "-1");
    assert_eq!(decimal_i64(-16), "-16");
    assert_eq!(decimal_i64(-1000), "-1000");
}

#[test]
fn extremes_of_the_signed_range() {
    assert_eq!(decimal_i64(i64::MAX), "9223372036854775807");
    assert_eq!(decimal_i64(i64::MIN), "-9223372036854775808");
}

#[test]
fn decimal_agrees_with_the_standard_notation() {
    let samples: [i64; 9] = [0, 7, -7, 42, -42, 99, 1000, -123456789, 8];
    for i in samples.iter() {
        assert_eq!(decimal_i64(*i), format!("{}", i));
    }
    let mut n: u64 = 1;
    while n < u64::MAX / 3 {
        assert_eq!(decimal_u64(n), format!("{}", n));
        n = n * 3 + 1;
    }
}

#[test]
fn pushing_keeps_what_was_there() {
    let mut out = String::from("offset ");
    push_decimal_i64(&mut out, -24);
    out.push_str(" size ");
    push_decimal_u64(&mut out, 24);
    assert_eq!(out, "offset -24 size 24");
}
