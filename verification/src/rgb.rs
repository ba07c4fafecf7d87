//! A small RGB color value and its `#RRGGBB` text form.

use vstd::prelude::*;
use vstd::string::*;

verus! {

/// One color, eight bits per channel.
#[derive(Copy, Clone, Debug, PartialEq, Eq, Structural)]
pub struct Rgb {
    pub r: u8,
    pub g: u8,
    pub b: u8,
}

/// The text was not a `#RRGGBB` color.
#[derive(Debug, PartialEq, Eq, Structural)]
pub struct ParseRgbError;

/// The value of one hexadecimal digit character, either case.
pub open spec fn hex_digit(c: char) -> Option<nat> {
    if c == '0' {
        Some(0 as nat)
    } else if c == '1' {
        Some(1 as nat)
    } else if c == '2' {
        Some(2 as nat)
    } else if c == '3' {
        Some(3 as nat)
    } else if c == '4' {
        Some(4 as nat)
    } else if c == '5' {
        Some(5 as nat)
    } else if c == '6' {
        Some(6 as nat)
    } else if c == '7' {
        Some(7 as nat)
    } else if c == '8' {
        Some(8 as nat)
    } else if c == '9' {
        Some(9 as nat)
    } else if c == 'a' || c == 'A' {
        Some(10 as nat)
    } else if c == 'b' || c == 'B' {
        Some(11 as nat)
    } else if c == 'c' || c == 'C' {
        Some(12 as nat)
    } else if c == 'd' || c == 'D' {
        Some(13 as nat)
    } else if c == 'e' || c == 'E' {
        Some(14 as nat)
    } else if c == 'f' || c == 'F' {
        Some(15 as nat)
    } else {
        None
    }
}

/// The byte two hexadecimal digit characters spell.
pub open spec fn hex_pair(hi: char, lo: char) -> Option<u8> {
    match (hex_digit(hi), hex_digit(lo)) {
        (Some(h), Some(l)) => Some((h * 16 + l) as u8),
        _ => None,
    }
}

/// What a color text means: exactly seven characters, a leading `#`, then
/// six hexadecimal digits.
pub open spec fn spec_parse_rgb(s: Seq<char>) -> Option<Rgb> {
    if s.len() == 7 && s[0] == '#' {
        match (hex_pair(s[1], s[2]), hex_pair(s[3], s[4]), hex_pair(s[5], s[6])) {
            (Some(rv), Some(gv), Some(bv)) => Some(Rgb { r: rv, g: gv, b: bv }),
            _ => None,
        }
    } else {
        None
    }
}

/// The uppercase hexadecimal digit character for a value below sixteen.
pub open spec fn hex_char_upper(d: nat) -> char {
    if d == 0 {
        '0'
    } else if d == 1 {
        '1'
    } else if d == 2 {
        '2'
    } else if d == 3 {
        '3'
    } else if d == 4 {
        '4'
    } else if d == 5 {
        '5'
    } else if d == 6 {
        '6'
    } else if d == 7 {
        '7'
    } else if d == 8 {
        '8'
    } else if d == 9 {
        '9'
    } else if d == 10 {
        'A'
    } else if d == 11 {
        'B'
    } else if d == 12 {
        'C'
    } else if d == 13 {
        'D'
    } else if d == 14 {
        'E'
    } else {
        'F'
    }
}

/// A byte as two uppercase hexadecimal digit characters.
pub open spec fn hex2(n: u8) -> Seq<char> {
    seq![hex_char_upper(n as nat / 16), hex_char_upper(n as nat % 16)]
}

fn hex_digit_exec(c: char) -> (res: Option<u8>)
    ensures
        match res {
            Some(d) => hex_digit(c) == Some(d as nat) && d < 16,
            None => hex_digit(c) is None,
        },
{
    if c == '0' {
        Some(0)
    } else if c == '1' {
        Some(1)
    } else if c == '2' {
        Some(2)
    } else if c == '3' {
        Some(3)
    } else if c == '4' {
        Some(4)
    } else if c == '5' {
        Some(5)
    } else if c == '6' {
        Some(6)
    } else if c == '7' {
        Some(7)
    } else if c == '8' {
        Some(8)
    } else if c == '9' {
        Some(9)
    } else if c == 'a' || c == 'A' {
        Some(10)
    } else if c == 'b' || c == 'B' {
        Some(11)
    } else if c == 'c' || c == 'C' {
        Some(12)
    } else if c == 'd' || c == 'D' {
        Some(13)
    } else if c == 'e' || c == 'E' {
        Some(14)
    } else if c == 'f' || c == 'F' {
        Some(15)
    } else {
        None
    }
}

fn hex_str_upper(d: u8) -> (res: &'static str)
    requires
        d < 16,
    ensures
        res@ == seq![hex_char_upper(d as nat)],
{
    proof {
        reveal_strlit("0");
        reveal_strlit("1");
        reveal_strlit("2");
        reveal_strlit("3");
        reveal_strlit("4");
        reveal_strlit("5");
        reveal_strlit("6");
        reveal_strlit("7");
        reveal_strlit("8");
        reveal_strlit("9");
        reveal_strlit("A");
        reveal_strlit("B");
        reveal_strlit("C");
        reveal_strlit("D");
        reveal_strlit("E");
        reveal_strlit("F");
    }
    if d == 0 {
        "0"
    } else if d == 1 {
        "1"
    } else if d == 2 {
        "2"
    } else if d == 3 {
        "3"
    } else if d == 4 {
        "4"
    } else if d == 5 {
        "5"
    } else if d == 6 {
        "6"
    } else if d == 7 {
        "7"
    } else if d == 8 {
        "8"
    } else if d == 9 {
        "9"
    } else if d == 10 {
        "A"
    } else if d == 11 {
        "B"
    } else if d == 12 {
        "C"
    } else if d == 13 {
        "D"
    } else if d == 14 {
        "E"
    } else {
        "F"
    }
}

impl Rgb {
    /// A color from its three channels.
    pub fn new(r: u8, g: u8, b: u8) -> (res: Rgb)
        ensures
            res == (Rgb { r, g, b }),
    {
        Rgb { r, g, b }
    }

    /// Reads a `#RRGGBB` text, either case of digits.
    pub fn parse(s: &str) -> (res: Result<Rgb, ParseRgbError>)
        ensures
            match spec_parse_rgb(s@) {
                Some(v) => res == Ok::<Rgb, ParseRgbError>(v),
                None => res == Err::<Rgb, ParseRgbError>(ParseRgbError),
            },
    {
        if s.unicode_len() != 7 {
            return Err(ParseRgbError);
        }
        if s.get_char(0) != '#' {
            return Err(ParseRgbError);
        }
        let rv = match hex_pair_exec(s.get_char(1), s.get_char(2)) {
            Some(v) => v,
            None => {
                return Err(ParseRgbError);
            },
        };
        let gv = match hex_pair_exec(s.get_char(3), s.get_char(4)) {
            Some(v) => v,
            None => {
                return Err(ParseRgbError);
            },
        };
        let bv = match hex_pair_exec(s.get_char(5), s.get_char(6)) {
            Some(v) => v,
            None => {
                return Err(ParseRgbError);
            },
        };
        Ok(Rgb { r: rv, g: gv, b: bv })
    }

    /// The `#RRGGBB` text of this color, uppercase.
    pub fn hex_string(&self) -> (out: String)
        ensures
            out@ == seq!['#'] + hex2(self.r) + hex2(self.g) + hex2(self.b),
    {
        let mut s = "#".to_owned();
        s.append(hex_str_upper(self.r / 16));
        s.append(hex_str_upper(self.r % 16));
        s.append(hex_str_upper(self.g / 16));
        s.append(hex_str_upper(self.g % 16));
        s.append(hex_str_upper(self.b / 16));
        s.append(hex_str_upper(self.b % 16));
        proof {
            reveal_strlit("#");
            assert(out_matches(s@, *self)) by {
                assert(s@ =~= seq!['#'] + hex2(self.r) + hex2(self.g) + hex2(self.b));
            }
        }
        s
    }
}

/// The built text is the color's canonical form.
spec fn out_matches(s: Seq<char>, c: Rgb) -> bool {
    s == seq!['#'] + hex2(c.r) + hex2(c.g) + hex2(c.b)
}

fn hex_pair_exec(hi: char, lo: char) -> (res: Option<u8>)
    ensures
        res == hex_pair(hi, lo),
{
    match (hex_digit_exec(hi), hex_digit_exec(lo)) {
        (Some(h), Some(l)) => Some(h * 16 + l),
        _ => None,
    }
}

} // verus!
