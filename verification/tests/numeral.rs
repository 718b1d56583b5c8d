use lamp_drpc::numeral::{parse_u64, push_decimal, signed_decimal_text};

fn written(n: u32) -> String {
    let mut out = String::new();
    push_decimal(&mut out, n);
    out
}

fn read(text: &str) -> Option<u64> {
    parse_u64(&text.chars().collect())
}

#[test]
fn numerals_have_no_leading_zero() {
    assert_eq!(written(0), "0");
    assert_eq!(written(7), "7");
    assert_eq!(written(10), "10");
    assert_eq!(written(1985902208), "1985902208");
    assert_eq!(written(u32::MAX), "4294967295");
}

#[test]
fn numerals_are_appended() {
    let mut out = String::from("n=");
    push_decimal(&mut out, 42);
    assert_eq!(out, "n=42");
}

#[test]
fn numerals_agree_with_the_standard_library() {
    for n in [0u32, 1, 9, 10, 99, 100, 101, 65535, 65536, 999_999_999, 1_000_000_000] {
        assert_eq!(written(n), n.to_string());
    }
}

#[test]
fn signed_numerals_carry_a_minus_sign() {
    assert_eq!(signed_decimal_text(1999), "1999");
    assert_eq!(signed_decimal_text(0), "0");
    assert_eq!(signed_decimal_text(-44), "-44");
    assert_eq!(signed_decimal_text(i32::MAX), "2147483647");
    assert_eq!(signed_decimal_text(i32::MIN), "-2147483648");
}

#[test]
fn digits_are_read_as_a_number() {
    assert_eq!(read("215"), Some(215));
    assert_eq!(read("0"), Some(0));
    assert_eq!(read("007"), Some(7));
    assert_eq!(read("+7"), Some(7));
}

#[test]
fn the_largest_number_is_read_and_the_next_is_not() {
    assert_eq!(read("18446744073709551615"), Some(u64::MAX));
    assert_eq!(read("18446744073709551616"), None);
    assert_eq!(read("99999999999999999999999"), None);
}

#[test]
fn anything_but_digits_is_not_a_number() {
    assert_eq!(read(""), None);
    assert_eq!(read("+"), None);
    assert_eq!(read("-1"), None);
    assert_eq!(read("12a"), None);
    assert_eq!(read("a12"), None);
    assert_eq!(read(" 12"), None);
    assert_eq!(read("1 2"), None);
    assert_eq!(read("++1"), None);
}

#[test]
fn reading_agrees_with_the_standard_library() {
    for text in ["", "+", "0", "00", "+0", "42", "4x2", "18446744073709551615", "18446744073709551616", "-0"] {
        assert_eq!(read(text), text.parse::<u64>().ok());
    }
}

#[test]
fn what_is_written_is_read_back() {
    for n in [0u32, 5, 10, 512, 1024, u32::MAX] {
        assert_eq!(read(&written(n)), Some(n as u64));
    }
}
