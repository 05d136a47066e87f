use slashcloud::decimal::{i32_or_zero, parse_i32, parse_u32, push_decimal, u32_or_zero};

#[test]
fn parse_i32_matches_std() {
    let cases = [
        "", "+", "-", "0", "-0", "+7", "-12", "0012", "2147483647", "2147483648", "-2147483648",
        "-2147483649", "12a", " 1", "1 ", "99999999999999999999", "+-1", "--1", "1.5",
    ];
    for c in cases.iter() {
        assert_eq!(parse_i32(c.as_bytes()), c.parse::<i32>().ok(), "input {:?}", c);
    }
}

#[test]
fn parse_u32_matches_std() {
    let cases = [
        "", "+", "-", "0", "-0", "+7", "-12", "0012", "4294967295", "4294967296", "x", "42",
        "00000000000000000000042", "1e3",
    ];
    for c in cases.iter() {
        assert_eq!(parse_u32(c.as_bytes()), c.parse::<u32>().ok(), "input {:?}", c);
    }
}

#[test]
fn missing_or_invalid_headers_read_as_zero() {
    assert_eq!(i32_or_zero(None), 0);
    assert_eq!(i32_or_zero(Some(b"nope")), 0);
    assert_eq!(i32_or_zero(Some(b"1470173023.123")), 0);
    assert_eq!(i32_or_zero(Some(b"-5")), -5);
    assert_eq!(u32_or_zero(None), 0);
    assert_eq!(u32_or_zero(Some(b"-5")), 0);
    assert_eq!(u32_or_zero(Some(b"49")), 49);
}

#[test]
fn decimal_text_of_numbers() {
    for n in [0u64, 7, 10, 99, 100, 1234567890, u64::MAX] {
        let mut s = String::from("x");
        push_decimal(&mut s, n);
        assert_eq!(s, format!("x{}", n));
    }
}
