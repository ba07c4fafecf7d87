use bulbs::rgb::{ParseRgbError, Rgb};

#[test]
fn parse_reads_hex_colors_either_case() {
    assert_eq!(Rgb::parse("#A1b2C3"), Ok(Rgb::new(0xA1, 0xB2, 0xC3)));
    assert_eq!(Rgb::parse("#000000"), Ok(Rgb::new(0, 0, 0)));
    assert_eq!(Rgb::parse("#ffffff"), Ok(Rgb::new(255, 255, 255)));
}

#[test]
fn parse_rejects_malformed_colors() {
    assert_eq!(Rgb::parse(""), Err(ParseRgbError));
    assert_eq!(Rgb::parse("A1B2C3"), Err(ParseRgbError));
    assert_eq!(Rgb::parse("#12345"), Err(ParseRgbError));
    assert_eq!(Rgb::parse("#1234567"), Err(ParseRgbError));
    assert_eq!(Rgb::parse("#12g456"), Err(ParseRgbError));
    assert_eq!(Rgb::parse("#.12345"), Err(ParseRgbError));
}

#[test]
fn hex_string_is_canonical_uppercase() {
    assert_eq!(Rgb::new(1, 2, 3).hex_string(), "#010203");
    assert_eq!(Rgb::new(0xAB, 0xCD, 0xEF).hex_string(), "#ABCDEF");
}

#[test]
fn hex_string_round_trips_through_parse() {
    let c = Rgb::new(17, 128, 254);
    assert_eq!(Rgb::parse(&c.hex_string()), Ok(c));
}
