use vpn_api::text::{decimal_i32, decimal_u32, parse_i32, parse_u32, string_of_chars, chars_of};

#[test]
fn decimal_texts() {
    assert_eq!(decimal_u32(0), "0");
    assert_eq!(decimal_u32(7), "7");
    assert_eq!(decimal_u32(51820), "51820");
    assert_eq!(decimal_u32(u32::MAX), "4294967295");
    assert_eq!(decimal_i32(-1), "-1");
    assert_eq!(decimal_i32(i32::MIN), "-2147483648");
    assert_eq!(decimal_i32(i32::MAX), "2147483647");
    assert_eq!(decimal_i32(25), "25");
}

#[test]
fn parse_i32_like_from_str() {
    for text in ["0", "24", "+24", "-24", "007", "2147483647", "-2147483648", "", "+", "-", "2147483648", "-2147483649", "1a", " 1", "--1", "99999999999999999999"] {
        assert_eq!(parse_i32(text), text.parse::<i32>().ok(), "{text}");
    }
}

#[test]
fn parse_u32_like_from_str() {
    for text in ["0", "32", "+32", "-0", "-1", "4294967295", "4294967296", "", "+", "x", "12 ", "000012"] {
        assert_eq!(parse_u32(text), text.parse::<u32>().ok(), "{text}");
    }
}

#[test]
fn decimal_roundtrip() {
    for n in [i32::MIN, -100, -1, 0, 1, 9, 10, 12345, i32::MAX] {
        assert_eq!(parse_i32(&decimal_i32(n)), Some(n));
    }
}

#[test]
fn chars_and_back() {
    let chars = chars_of("wg0/ünï");
    assert_eq!(chars.len(), 7);
    assert_eq!(string_of_chars(&chars, 4, 7), "ünï");
    assert_eq!(string_of_chars(&chars, 0, 3), "wg0");
}
