use c8d::text::{push_decimal, push_upper_hex, push_upper_hex4};

fn upper_hex_string(n: u64) -> String {
    let mut text = String::new();
    push_upper_hex(&mut text, n);
    text
}

fn upper_hex4_string(n: u64) -> String {
    let mut text = String::new();
    push_upper_hex4(&mut text, n);
    text
}

fn decimal_string(n: u64) -> String {
    let mut text = String::new();
    push_decimal(&mut text, n);
    text
}

#[test]
fn digits_are_zero_to_nine_then_a_to_f() {
    let all = "0123456789ABCDEF";
    for d in 0u8..16 {
        let at = usize::from(d);
        assert_eq!(upper_hex_string(u64::from(d)), &all[at..at + 1]);
    }
    for d in 0u8..10 {
        let at = usize::from(d);
        assert_eq!(decimal_string(u64::from(d)), &all[at..at + 1]);
    }
}

#[test]
fn hexadecimal_has_no_leading_zeros() {
    assert_eq!(upper_hex_string(0), "0");
    assert_eq!(upper_hex_string(0xA), "A");
    assert_eq!(upper_hex_string(0x10), "10");
    assert_eq!(upper_hex_string(0xABC), "ABC");
    assert_eq!(upper_hex_string(0xFFFF), "FFFF");
    assert_eq!(upper_hex_string(u64::MAX), "FFFFFFFFFFFFFFFF");
}

#[test]
fn decimal_has_no_leading_zeros() {
    assert_eq!(decimal_string(0), "0");
    assert_eq!(decimal_string(9), "9");
    assert_eq!(decimal_string(10), "10");
    assert_eq!(decimal_string(4095), "4095");
    assert_eq!(decimal_string(u64::MAX), "18446744073709551615");
}

#[test]
fn padded_hexadecimal_has_at_least_four_digits() {
    assert_eq!(upper_hex4_string(0), "0000");
    assert_eq!(upper_hex4_string(0xF), "000F");
    assert_eq!(upper_hex4_string(0x10), "0010");
    assert_eq!(upper_hex4_string(0xFF), "00FF");
    assert_eq!(upper_hex4_string(0x100), "0100");
    assert_eq!(upper_hex4_string(0xFFF), "0FFF");
    assert_eq!(upper_hex4_string(0x1000), "1000");
    assert_eq!(upper_hex4_string(0xFFFF), "FFFF");
    assert_eq!(upper_hex4_string(0x10000), "10000");
    assert_eq!(upper_hex4_string(u64::MAX), "FFFFFFFFFFFFFFFF");
}

#[test]
fn digits_agree_with_the_standard_formatter() {
    for n in 0u64..=0x1_1000 {
        assert_eq!(upper_hex_string(n), format!("{:X}", n));
        assert_eq!(upper_hex4_string(n), format!("{:04X}", n));
        assert_eq!(decimal_string(n), format!("{}", n));
    }
    let mut n: u64 = 1;
    while n < u64::MAX / 3 {
        assert_eq!(upper_hex_string(n), format!("{:X}", n));
        assert_eq!(upper_hex4_string(n), format!("{:04X}", n));
        assert_eq!(decimal_string(n), format!("{}", n));
        n = n * 3 + 1;
    }
}

#[test]
fn pushing_appends_and_keeps_what_was_there() {
    let mut out = String::from("V");
    push_upper_hex(&mut out, 0xC);
    assert_eq!(out, "VC");
    push_decimal(&mut out, 12);
    assert_eq!(out, "VC12");
    push_upper_hex4(&mut out, 0x2A);
    assert_eq!(out, "VC12002A");
}
