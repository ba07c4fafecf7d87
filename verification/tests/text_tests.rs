use bulbs::text::{dec_string, parse_dec_u8, trim_trailing_newline};

#[test]
fn dec_string_renders_decimal() {
    assert_eq!(dec_string(0), "0");
    assert_eq!(dec_string(7), "7");
    assert_eq!(dec_string(10), "10");
    assert_eq!(dec_string(404), "404");
    assert_eq!(dec_string(65535), "65535");
}

#[test]
fn parse_dec_u8_accepts_bytes() {
    assert_eq!(parse_dec_u8("0"), Some(0));
    assert_eq!(parse_dec_u8("1"), Some(1));
    assert_eq!(parse_dec_u8("255"), Some(255));
    assert_eq!(parse_dec_u8("007"), Some(7));
}

#[test]
fn parse_dec_u8_rejects_everything_else() {
    assert_eq!(parse_dec_u8(""), None);
    assert_eq!(parse_dec_u8("256"), None);
    assert_eq!(parse_dec_u8("300"), None);
    assert_eq!(parse_dec_u8("1000000"), None);
    assert_eq!(parse_dec_u8("12a"), None);
    assert_eq!(parse_dec_u8("-1"), None);
    assert_eq!(parse_dec_u8("1.0"), None);
    assert_eq!(parse_dec_u8(" 1"), None);
}

#[test]
fn trim_drops_one_trailing_newline() {
    assert_eq!(trim_trailing_newline("abc\n"), "abc");
    assert_eq!(trim_trailing_newline("abc"), "abc");
    assert_eq!(trim_trailing_newline("\n"), "");
    assert_eq!(trim_trailing_newline("a\n\n"), "a\n");
    assert_eq!(trim_trailing_newline(""), "");
}
