//! Core color type and the Nord palette.

use vstd::prelude::*;

verus! {

/// An sRGB color with 8-bit channels.
#[derive(Debug, Clone, Copy, PartialEq, Eq, Structural)]
pub struct Color {
    /// Red channel (0..=255).
    pub r: u8,
    /// Green channel (0..=255).
    pub g: u8,
    /// Blue channel (0..=255).
    pub b: u8,
}

impl Color {
    /// Creates a new color from 8-bit RGB components.
    pub fn new(r: u8, g: u8, b: u8) -> (c: Self)
        ensures
            c == (Color { r, g, b }),
    {
        Color { r, g, b }
    }
}

/// Errors returned when parsing a hex color string.
#[derive(Debug, Clone, PartialEq, Eq, Structural)]
#[non_exhaustive]
pub enum HexParseError {
    /// The string (after stripping `#`) was not exactly 6 characters; holds that length.
    InvalidLength(usize),
    /// A character was not a valid hexadecimal digit.
    InvalidChar,
}

// ── Hex digits ─────────────────────────────────────────────────────────

/// ASCII `0`.
pub const ASCII_ZERO: u8 = 0x30;
/// ASCII `A`.
pub const ASCII_UPPER_A: u8 = 0x41;

/// The value of one ASCII hexadecimal digit (`0-9`, `a-f`, `A-F`), if the char is one.
pub open spec fn hex_digit_value(c: char) -> Option<u8> {
    if '0' <= c && c <= '9' {
        Some((c as u32 - '0' as u32) as u8)
    } else if 'a' <= c && c <= 'f' {
        Some((c as u32 - 'a' as u32 + 10) as u8)
    } else if 'A' <= c && c <= 'F' {
        Some((c as u32 - 'A' as u32 + 10) as u8)
    } else {
        None
    }
}

/// The value of a channel written as two hex digits, high digit first.
pub open spec fn hex_pair_value(hi: char, lo: char) -> Option<u8> {
    match (hex_digit_value(hi), hex_digit_value(lo)) {
        (Some(h), Some(l)) => Some((h * 16 + l) as u8),
        _ => None,
    }
}

/// A hex string with one leading `#` removed, if there is one.
pub open spec fn strip_hash(s: Seq<char>) -> Seq<char> {
    if s.len() > 0 && s[0] == '#' {
        s.drop_first()
    } else {
        s
    }
}

/// What parsing a hex color string gives: a body (the string without its leading
/// `#`) of other than six characters is reported with its length in characters; a
/// six-character body parses exactly when every character is a hex digit.
pub open spec fn parse_hex_spec(s: Seq<char>) -> Result<Color, HexParseError> {
    let body = strip_hash(s);
    if body.len() != 6 {
        Err(HexParseError::InvalidLength(body.len() as usize))
    } else {
        match (
            hex_pair_value(body[0], body[1]),
            hex_pair_value(body[2], body[3]),
            hex_pair_value(body[4], body[5]),
        ) {
            (Some(r), Some(g), Some(b)) => Ok(Color { r, g, b }),
            _ => Err(HexParseError::InvalidChar),
        }
    }
}

/// The uppercase hexadecimal digit for a value below 16.
pub open spec fn hex_digit_char(d: u8) -> char
    recommends
        d < 16,
{
    if d < 10 {
        (ASCII_ZERO + d) as char
    } else {
        (ASCII_UPPER_A + d - 10) as char
    }
}

/// The two uppercase hex digits of a byte.
pub open spec fn byte_hex_chars(v: u8) -> Seq<char> {
    seq![hex_digit_char(v / 16), hex_digit_char(v % 16)]
}

/// The hex form of a color: `#` followed by two uppercase digits per channel.
pub open spec fn color_hex_chars(c: Color) -> Seq<char> {
    seq!['#'] + byte_hex_chars(c.r) + byte_hex_chars(c.g) + byte_hex_chars(c.b)
}

/// Reads one ASCII hex digit.
fn hex_digit(c: char) -> (d: Option<u8>)
    ensures
        d == hex_digit_value(c),
{
    if '0' <= c && c <= '9' {
        Some((c as u32 - '0' as u32) as u8)
    } else if 'a' <= c && c <= 'f' {
        Some((c as u32 - 'a' as u32 + 10) as u8)
    } else if 'A' <= c && c <= 'F' {
        Some((c as u32 - 'A' as u32 + 10) as u8)
    } else {
        None
    }
}

/// Reads a channel written as two hex digits.
fn hex_pair(hi: char, lo: char) -> (v: Option<u8>)
    ensures
        v == hex_pair_value(hi, lo),
{
    match (hex_digit(hi), hex_digit(lo)) {
        (Some(h), Some(l)) => Some(h * 16 + l),
        _ => None,
    }
}

/// Appends one char to a string, by `std::string::String::push`.
///
/// Trusted: the contract claims, as std documents, that `push` leaves the old
/// contents in place and adds `c` at the end.
#[verifier::external_body]
fn push_char(s: &mut String, c: char)
    ensures
        final(s)@ == old(s)@.push(c),
{
    s.push(c);
}

/// Appends the two uppercase hex digits of a byte.
fn push_hex_byte(s: &mut String, v: u8)
    ensures
        final(s)@ == old(s)@ + byte_hex_chars(v),
{
    let hi = v / 16;
    let lo = v % 16;
    let c_hi = if hi < 10 { (ASCII_ZERO + hi) as char } else { (ASCII_UPPER_A + hi - 10) as char };
    let c_lo = if lo < 10 { (ASCII_ZERO + lo) as char } else { (ASCII_UPPER_A + lo - 10) as char };
    push_char(s, c_hi);
    push_char(s, c_lo);
    assert(final(s)@ =~= old(s)@ + byte_hex_chars(v));
}

impl Color {
    /// Parses a hex color string (with or without leading `#`).
    ///
    /// Accepts `"#2E3440"` or `"2E3440"` (case-insensitive, 6 hex digits). A body of
    /// other than six characters gives `InvalidLength` with its length in characters;
    /// a six-character body with a character that is not a hex digit gives `InvalidChar`.
    pub fn from_hex(hex: &str) -> (res: Result<Self, HexParseError>)
        ensures
            res == parse_hex_spec(hex@),
    {
        let n = hex.unicode_len();
        let start: usize = if n > 0 && hex.get_char(0) == '#' { 1 } else { 0 };
        let len: usize = n - start;
        proof {
            assert(strip_hash(hex@) =~= hex@.subrange(start as int, hex@.len() as int));
        }
        if len != 6 {
            return Err(HexParseError::InvalidLength(len));
        }
        let r = match hex_pair(hex.get_char(start), hex.get_char(start + 1)) {
            Some(v) => v,
            None => return Err(HexParseError::InvalidChar),
        };
        let g = match hex_pair(hex.get_char(start + 2), hex.get_char(start + 3)) {
            Some(v) => v,
            None => return Err(HexParseError::InvalidChar),
        };
        let b = match hex_pair(hex.get_char(start + 4), hex.get_char(start + 5)) {
            Some(v) => v,
            None => return Err(HexParseError::InvalidChar),
        };
        Ok(Color { r, g, b })
    }

    /// Formats the color as an uppercase hex string with leading `#`.
    pub fn to_hex(&self) -> (s: String)
        ensures
            s@ == color_hex_chars(*self),
            s@ == seq![
                '#',
                "0123456789ABCDEF"@[(self.r / 16) as int],
                "0123456789ABCDEF"@[(self.r % 16) as int],
                "0123456789ABCDEF"@[(self.g / 16) as int],
                "0123456789ABCDEF"@[(self.g % 16) as int],
                "0123456789ABCDEF"@[(self.b / 16) as int],
                "0123456789ABCDEF"@[(self.b % 16) as int],
            ],
    {
        proof {
            lemma_hex_text_digits(*self);
        }
        let mut s = String::new();
        push_char(&mut s, '#');
        push_hex_byte(&mut s, self.r);
        push_hex_byte(&mut s, self.g);
        push_hex_byte(&mut s, self.b);
        assert(s@ =~= color_hex_chars(*self));
        s
    }
}

/// The decimal digit for a value below 10.
pub open spec fn decimal_digit_char(d: nat) -> char
    recommends
        d < 10,
{
    (ASCII_ZERO + d) as char
}

/// The decimal form of a natural number, without leading zeros.
pub open spec fn decimal_chars(n: nat) -> Seq<char>
    decreases n,
{
    if n < 10 {
        seq![decimal_digit_char(n)]
    } else {
        decimal_chars(n / 10).push(decimal_digit_char(n % 10))
    }
}

/// Decimal writing: a number below 10 is its digit from `"0123456789"`, and
/// appending a digit `d` to the writing of a positive `n` writes `10 * n + d`.
pub proof fn lemma_decimal_digits(n: nat, d: nat)
    requires
        d < 10,
    ensures
        decimal_chars(d) == seq!["0123456789"@[d as int]],
        n > 0 ==> decimal_chars(10 * n + d) == decimal_chars(n).push("0123456789"@[d as int]),
{
    reveal_strlit("0123456789");
    assert("0123456789"@ =~= seq!['0', '1', '2', '3', '4', '5', '6', '7', '8', '9']);
    if n > 0 {
        assert((10 * n + d) / 10 == n);
        assert((10 * n + d) % 10 == d);
    }
}

/// Appends the decimal digits of `n`.
fn push_decimal(s: &mut String, n: usize)
    ensures
        final(s)@ == old(s)@ + decimal_chars(n as nat),
    decreases n,
{
    if n >= 10 {
        push_decimal(s, n / 10);
    }
    let d = (n % 10) as u8;
    push_char(s, (ASCII_ZERO + d) as char);
    assert(final(s)@ =~= old(s)@ + decimal_chars(n as nat));
}

/// The message that describes a hex parse error.
pub open spec fn hex_parse_error_message(e: HexParseError) -> Seq<char> {
    match e {
        HexParseError::InvalidLength(n) => "expected 6 hex digits, got "@ + decimal_chars(n as nat),
        HexParseError::InvalidChar => "invalid hex character"@,
    }
}

impl HexParseError {
    /// Describes the error in words.
    pub fn to_string(&self) -> (s: String)
        ensures
            s@ == hex_parse_error_message(*self),
    {
        let mut s = String::new();
        match self {
            HexParseError::InvalidLength(n) => {
                s.append("expected 6 hex digits, got ");
                push_decimal(&mut s, *n);
            },
            HexParseError::InvalidChar => {
                s.append("invalid hex character");
            },
        }
        s
    }
}

impl Color {
    /// The color's text form, the same as [`Color::to_hex`].
    pub fn to_string(&self) -> (s: String)
        ensures
            s@ == color_hex_chars(*self),
    {
        self.to_hex()
    }
}

impl core::str::FromStr for Color {
    type Err = HexParseError;

    /// Parses a color from a hex string, delegating to [`Color::from_hex`].
    fn from_str(s: &str) -> (res: Result<Self, Self::Err>)
        ensures
            res == parse_hex_spec(s@),
    {
        Color::from_hex(s)
    }
}

// ── Laws of hex parsing and formatting ───────────────────────────────

/// A hex digit char reads back as the value it was made from.
proof fn lemma_hex_digit_char_reads_back(d: u8)
    requires
        d < 16,
    ensures
        hex_digit_value(hex_digit_char(d)) == Some(d),
        hex_digit_char(d) != '#',
{
}

/// The two hex digits of a byte read back, as a channel, as that byte.
proof fn lemma_byte_hex_chars_read_back(v: u8)
    ensures
        hex_pair_value(byte_hex_chars(v)[0], byte_hex_chars(v)[1]) == Some(v),
        byte_hex_chars(v)[0] != '#',
{
    lemma_hex_digit_char_reads_back(v / 16);
    lemma_hex_digit_char_reads_back(v % 16);
}

/// Parsing the text of `to_hex` gives the color back.
pub proof fn lemma_hex_roundtrip(c: Color)
    ensures
        parse_hex_spec(color_hex_chars(c)) == Ok::<Color, HexParseError>(c),
{
    lemma_byte_hex_chars_read_back(c.r);
    lemma_byte_hex_chars_read_back(c.g);
    lemma_byte_hex_chars_read_back(c.b);
    assert(strip_hash(color_hex_chars(c)) =~= color_hex_chars(c).drop_first());
}

/// Parsing the text of `to_hex` without its `#` also gives the color back.
pub proof fn lemma_hex_roundtrip_without_hash(c: Color)
    ensures
        parse_hex_spec(color_hex_chars(c).drop_first()) == Ok::<Color, HexParseError>(c),
{
    lemma_byte_hex_chars_read_back(c.r);
    lemma_byte_hex_chars_read_back(c.g);
    lemma_byte_hex_chars_read_back(c.b);
    assert(strip_hash(color_hex_chars(c).drop_first()) =~= color_hex_chars(c).drop_first());
}

/// A leading `#` is optional: a body that does not itself start with `#` parses
/// the same with and without one in front.
pub proof fn lemma_hash_is_optional(body: Seq<char>)
    requires
        body.len() == 0 || body[0] != '#',
    ensures
        parse_hex_spec(seq!['#'] + body) == parse_hex_spec(body),
{
    assert((seq!['#'] + body).drop_first() =~= body);
}

/// Parsing succeeds exactly when the body is six hex digits, and then each channel
/// is the value of its two digits; a body of another length is reported with that
/// length, and a six-character body with any other character as an invalid char.
pub proof fn lemma_ok_iff_six_hex_digits(s: Seq<char>)
    ensures
        ({
            let body = strip_hash(s);
            &&& parse_hex_spec(s) is Ok <==> (body.len() == 6 && forall|i: int|
                0 <= i < 6 ==> (#[trigger] hex_digit_value(body[i])) is Some)
            &&& body.len() != 6 ==> parse_hex_spec(s) == Err::<Color, HexParseError>(
                HexParseError::InvalidLength(body.len() as usize),
            )
            &&& (body.len() == 6 && parse_hex_spec(s) is Err) ==> parse_hex_spec(s) == Err::<
                Color,
                HexParseError,
            >(HexParseError::InvalidChar)
        }),
{
    let body = strip_hash(s);
    if body.len() == 6 && parse_hex_spec(s) is Err {
        let bad = if hex_digit_value(body[0]) is None {
            0int
        } else if hex_digit_value(body[1]) is None {
            1int
        } else if hex_digit_value(body[2]) is None {
            2int
        } else if hex_digit_value(body[3]) is None {
            3int
        } else if hex_digit_value(body[4]) is None {
            4int
        } else {
            5int
        };
        assert(hex_digit_value(body[bad]) is None);
    }
}

/// The uppercase and lowercase digit of each value below 16 read back as that value,
/// and the formatting digit of a value is its uppercase digit.
proof fn lemma_digit_tables(d: int)
    requires
        0 <= d < 16,
    ensures
        hex_digit_value("0123456789ABCDEF"@[d]) == Some(d as u8),
        hex_digit_value("0123456789abcdef"@[d]) == Some(d as u8),
        hex_digit_char(d as u8) == "0123456789ABCDEF"@[d],
{
    reveal_strlit("0123456789ABCDEF");
    reveal_strlit("0123456789abcdef");
    assert("0123456789ABCDEF"@ =~= seq![
        '0', '1', '2', '3', '4', '5', '6', '7', '8', '9', 'A', 'B', 'C', 'D', 'E', 'F',
    ]);
    assert("0123456789abcdef"@ =~= seq![
        '0', '1', '2', '3', '4', '5', '6', '7', '8', '9', 'a', 'b', 'c', 'd', 'e', 'f',
    ]);
}

/// The text of `to_hex` is `#` and then, for each of red, green and blue, the digit of
/// `"0123456789ABCDEF"` at the channel's value divided by 16, then the one at its
/// value modulo 16.
pub proof fn lemma_hex_text_digits(c: Color)
    ensures
        color_hex_chars(c) == seq![
            '#',
            "0123456789ABCDEF"@[(c.r / 16) as int],
            "0123456789ABCDEF"@[(c.r % 16) as int],
            "0123456789ABCDEF"@[(c.g / 16) as int],
            "0123456789ABCDEF"@[(c.g % 16) as int],
            "0123456789ABCDEF"@[(c.b / 16) as int],
            "0123456789ABCDEF"@[(c.b % 16) as int],
        ],
{
    lemma_digit_tables((c.r / 16) as int);
    lemma_digit_tables((c.r % 16) as int);
    lemma_digit_tables((c.g / 16) as int);
    lemma_digit_tables((c.g % 16) as int);
    lemma_digit_tables((c.b / 16) as int);
    lemma_digit_tables((c.b % 16) as int);
    assert(color_hex_chars(c) =~= seq![
        '#',
        "0123456789ABCDEF"@[(c.r / 16) as int],
        "0123456789ABCDEF"@[(c.r % 16) as int],
        "0123456789ABCDEF"@[(c.g / 16) as int],
        "0123456789ABCDEF"@[(c.g % 16) as int],
        "0123456789ABCDEF"@[(c.b / 16) as int],
        "0123456789ABCDEF"@[(c.b % 16) as int],
    ]);
}

/// A body of six hex digits, each written in either case, parses to the color whose
/// channels are 16 times the value of the first digit of the pair plus the value of
/// the second, the value of a digit being its place in `0123456789ABCDEF` (or in
/// `0123456789abcdef`).
pub proof fn lemma_parse_digit_values(s: Seq<char>, digits: Seq<int>)
    requires
        strip_hash(s).len() == 6,
        digits.len() == 6,
        forall|k: int|
            0 <= k < 6 ==> 0 <= #[trigger] digits[k] < 16 && (strip_hash(s)[k]
                == "0123456789ABCDEF"@[digits[k]] || strip_hash(s)[k]
                == "0123456789abcdef"@[digits[k]]),
    ensures
        parse_hex_spec(s) == Ok::<Color, HexParseError>(
            Color {
                r: (16 * digits[0] + digits[1]) as u8,
                g: (16 * digits[2] + digits[3]) as u8,
                b: (16 * digits[4] + digits[5]) as u8,
            },
        ),
{
    let body = strip_hash(s);
    assert forall|k: int| 0 <= k < 6 implies hex_digit_value(body[k]) == Some(
        digits[k] as u8,
    ) by {
        lemma_digit_tables(digits[k]);
    }
    assert(hex_digit_value(body[0]) == Some(digits[0] as u8));
    assert(hex_digit_value(body[1]) == Some(digits[1] as u8));
    assert(hex_digit_value(body[2]) == Some(digits[2] as u8));
    assert(hex_digit_value(body[3]) == Some(digits[3] as u8));
    assert(hex_digit_value(body[4]) == Some(digits[4] as u8));
    assert(hex_digit_value(body[5]) == Some(digits[5] as u8));
}

/// The ASCII lowercase form of a char; other chars are left as they are.
pub open spec fn ascii_to_lower(c: char) -> char {
    if 'A' <= c && c <= 'Z' {
        (c as u32 + 0x20) as char
    } else {
        c
    }
}

/// Lowercasing a char does not change its hex digit value.
proof fn lemma_lower_keeps_digit_value(c: char)
    ensures
        hex_digit_value(ascii_to_lower(c)) == hex_digit_value(c),
        (ascii_to_lower(c) == '#') == (c == '#'),
{
}

/// Hex parsing is case-insensitive: lowercasing the ASCII letters of the input
/// does not change the result.
pub proof fn lemma_parse_case_insensitive(s: Seq<char>)
    ensures
        parse_hex_spec(s.map_values(|c: char| ascii_to_lower(c))) == parse_hex_spec(s),
{
    let lower = s.map_values(|c: char| ascii_to_lower(c));
    let body = strip_hash(s);
    if s.len() > 0 {
        lemma_lower_keeps_digit_value(s[0]);
    }
    assert(strip_hash(lower) =~= body.map_values(|c: char| ascii_to_lower(c)));
    if body.len() == 6 {
        lemma_lower_keeps_digit_value(body[0]);
        lemma_lower_keeps_digit_value(body[1]);
        lemma_lower_keeps_digit_value(body[2]);
        lemma_lower_keeps_digit_value(body[3]);
        lemma_lower_keeps_digit_value(body[4]);
        lemma_lower_keeps_digit_value(body[5]);
    }
}

/// The complete Nord color palette, organised into its four named groups.
#[derive(Debug, Clone, Copy, PartialEq, Eq)]
pub struct NordPalette {
    /// Polar Night (nord0..nord3): dark background tones.
    pub polar_night: [Color; 4],
    /// Snow Storm (nord4..nord6): light foreground tones.
    pub snow_storm: [Color; 3],
    /// Frost (nord7..nord10): blue accent tones.
    pub frost: [Color; 4],
    /// Aurora (nord11..nord15): status and accent colors.
    pub aurora: [Color; 5],
}

/// The canonical Nord palette, as a value.
///
/// Values from <https://www.nordtheme.com/docs/colors-and-palettes>.
pub open spec fn nord_spec() -> NordPalette {
    NordPalette {
        polar_night: [
            Color { r: 0x2E, g: 0x34, b: 0x40 },
            Color { r: 0x3B, g: 0x42, b: 0x52 },
            Color { r: 0x43, g: 0x4C, b: 0x5E },
            Color { r: 0x4C, g: 0x56, b: 0x6A },
        ],
        snow_storm: [
            Color { r: 0xD8, g: 0xDE, b: 0xE9 },
            Color { r: 0xE5, g: 0xE9, b: 0xF0 },
            Color { r: 0xEC, g: 0xEF, b: 0xF4 },
        ],
        frost: [
            Color { r: 0x8F, g: 0xBC, b: 0xBB },
            Color { r: 0x88, g: 0xC0, b: 0xD0 },
            Color { r: 0x81, g: 0xA1, b: 0xC1 },
            Color { r: 0x5E, g: 0x81, b: 0xAC },
        ],
        aurora: [
            Color { r: 0xBF, g: 0x61, b: 0x6A },
            Color { r: 0xD0, g: 0x87, b: 0x70 },
            Color { r: 0xEB, g: 0xCB, b: 0x8B },
            Color { r: 0xA3, g: 0xBE, b: 0x8C },
            Color { r: 0xB4, g: 0x8E, b: 0xAD },
        ],
    }
}

/// The palette's sixteen colors in Nord index order (nord0..nord15).
pub open spec fn palette_colors(p: NordPalette) -> Seq<Color> {
    p.polar_night@ + p.snow_storm@ + p.frost@ + p.aurora@
}

/// The sixteen colors come group by group, in order: nord0..nord3 are the Polar
/// Night colors, nord4..nord6 Snow Storm, nord7..nord10 Frost, nord11..nord15 Aurora.
pub proof fn lemma_palette_colors_order(p: NordPalette)
    ensures
        palette_colors(p).len() == 16,
        forall|i: int| 0 <= i < 4 ==> palette_colors(p)[i] == p.polar_night[i],
        forall|i: int| 0 <= i < 3 ==> palette_colors(p)[4 + i] == p.snow_storm[i],
        forall|i: int| 0 <= i < 4 ==> palette_colors(p)[7 + i] == p.frost[i],
        forall|i: int| 0 <= i < 5 ==> palette_colors(p)[11 + i] == p.aurora[i],
{
}

impl NordPalette {
    /// Returns all 16 palette colors in Nord index order (nord0..nord15).
    pub fn all_colors(&self) -> (out: [Color; 16])
        ensures
            out@ == palette_colors(*self),
            forall|i: int| 0 <= i < 4 ==> out[i] == self.polar_night[i],
            forall|i: int| 0 <= i < 3 ==> out[4 + i] == self.snow_storm[i],
            forall|i: int| 0 <= i < 4 ==> out[7 + i] == self.frost[i],
            forall|i: int| 0 <= i < 5 ==> out[11 + i] == self.aurora[i],
    {
        proof {
            lemma_palette_colors_order(*self);
        }
        let out = [
            self.polar_night[0],
            self.polar_night[1],
            self.polar_night[2],
            self.polar_night[3],
            self.snow_storm[0],
            self.snow_storm[1],
            self.snow_storm[2],
            self.frost[0],
            self.frost[1],
            self.frost[2],
            self.frost[3],
            self.aurora[0],
            self.aurora[1],
            self.aurora[2],
            self.aurora[3],
            self.aurora[4],
        ];
        assert(out@ =~= palette_colors(*self));
        out
    }

    /// Returns the canonical Nord palette.
    pub fn nord() -> (p: NordPalette)
        ensures
            p == nord_spec(),
    {
        NordPalette {
            polar_night: [
                Color { r: 0x2E, g: 0x34, b: 0x40 },
                Color { r: 0x3B, g: 0x42, b: 0x52 },
                Color { r: 0x43, g: 0x4C, b: 0x5E },
                Color { r: 0x4C, g: 0x56, b: 0x6A },
            ],
            snow_storm: [
                Color { r: 0xD8, g: 0xDE, b: 0xE9 },
                Color { r: 0xE5, g: 0xE9, b: 0xF0 },
                Color { r: 0xEC, g: 0xEF, b: 0xF4 },
            ],
            frost: [
                Color { r: 0x8F, g: 0xBC, b: 0xBB },
                Color { r: 0x88, g: 0xC0, b: 0xD0 },
                Color { r: 0x81, g: 0xA1, b: 0xC1 },
                Color { r: 0x5E, g: 0x81, b: 0xAC },
            ],
            aurora: [
                Color { r: 0xBF, g: 0x61, b: 0x6A },
                Color { r: 0xD0, g: 0x87, b: 0x70 },
                Color { r: 0xEB, g: 0xCB, b: 0x8B },
                Color { r: 0xA3, g: 0xBE, b: 0x8C },
                Color { r: 0xB4, g: 0x8E, b: 0xAD },
            ],
        }
    }
}

} // verus!
