use irodori::{Color, HexParseError, NordPalette, SemanticColors};

fn sample_colors() -> Vec<Color> {
    let mut out = Vec::new();
    for r in (0..=255u8).step_by(15) {
        for g in [0u8, 1, 9, 10, 15, 16, 127, 128, 160, 255] {
            for b in [0u8, 7, 0xAB, 0xF0, 255] {
                out.push(Color::new(r, g, b));
            }
        }
    }
    out
}

#[test]
fn hex_roundtrip_many_colors() {
    for c in sample_colors() {
        let hex = c.to_hex();
        assert_eq!(Color::from_hex(&hex), Ok(c));
    }
}

#[test]
fn hex_without_hash_roundtrip_many_colors() {
    for c in sample_colors() {
        let hex = c.to_hex();
        assert_eq!(Color::from_hex(&hex[1..]), Ok(c));
    }
}

#[test]
fn to_hex_is_hash_and_six_uppercase_digits() {
    for c in sample_colors() {
        let hex = c.to_hex();
        assert_eq!(hex.len(), 7);
        assert!(hex.starts_with('#'));
        assert!(hex[1..].chars().all(|ch| ch.is_ascii_digit() || ('A'..='F').contains(&ch)));
    }
}

#[test]
fn from_str_matches_from_hex_many_colors() {
    for c in sample_colors() {
        let hex = c.to_hex();
        let parsed: Color = hex.parse().unwrap();
        assert_eq!(parsed, Color::from_hex(&hex).unwrap());
    }
}

#[test]
fn parse_is_case_insensitive() {
    assert_eq!(Color::from_hex("#abcdef"), Color::from_hex("#ABCDEF"));
    assert_eq!(Color::from_hex("#aBcDeF").unwrap(), Color::new(0xAB, 0xCD, 0xEF));
    assert_eq!(Color::from_hex("#gg0000"), Color::from_hex("#GG0000"));
}

#[test]
fn hash_is_optional() {
    assert_eq!(Color::from_hex("#5E81AC"), Color::from_hex("5E81AC"));
    assert_eq!(Color::from_hex("#12345"), Color::from_hex("12345"));
}

#[test]
fn only_one_hash_is_stripped() {
    assert_eq!(Color::from_hex("##123456"), Err(HexParseError::InvalidLength(7)));
    assert_eq!(Color::from_hex("##12345"), Err(HexParseError::InvalidChar));
}

#[test]
fn wrong_lengths_are_rejected_with_their_length() {
    let digits = "0123456789abcdef";
    for n in (0..=5).chain(7..=12) {
        let s = &digits[..n];
        assert_eq!(Color::from_hex(s), Err(HexParseError::InvalidLength(n)));
    }
}

#[test]
fn length_is_counted_in_characters() {
    assert_eq!(Color::from_hex("#éé"), Err(HexParseError::InvalidLength(2)));
    assert_eq!(Color::from_hex("é"), Err(HexParseError::InvalidLength(1)));
    // 1 + 2 + 3 bytes, but three characters.
    assert_eq!(Color::from_hex("aé€"), Err(HexParseError::InvalidLength(3)));
    assert_eq!(Color::from_hex("aé123"), Err(HexParseError::InvalidLength(5)));
}

#[test]
fn signs_are_not_hex_digits() {
    assert_eq!(Color::from_hex("+F+F+F"), Err(HexParseError::InvalidChar));
    assert_eq!(Color::from_hex("#+F+0+a"), Err(HexParseError::InvalidChar));
    assert_eq!(Color::from_hex("#-F0000"), Err(HexParseError::InvalidChar));
    assert_eq!(Color::from_hex("#++0000"), Err(HexParseError::InvalidChar));
}

#[test]
fn non_ascii_characters_are_invalid_chars() {
    assert_eq!(Color::from_hex("#é12345"), Err(HexParseError::InvalidChar));
    assert_eq!(Color::from_hex("#12aé12"), Err(HexParseError::InvalidChar));
    assert_eq!(Color::from_hex("ABCDE€"), Err(HexParseError::InvalidChar));
    assert_eq!("#12aé12".parse::<Color>(), Err(HexParseError::InvalidChar));
}

#[test]
fn parse_matches_from_hex_on_any_input() {
    for s in ["", "#", "é", "aé€", "#12aé12", "+F+F+F", "#88C0D0", "ZZZ", "##123456"] {
        assert_eq!(s.parse::<Color>(), Color::from_hex(s));
    }
}

#[test]
fn error_messages_write_lengths_in_decimal() {
    assert_eq!(HexParseError::InvalidLength(0).to_string(), "expected 6 hex digits, got 0");
    assert_eq!(HexParseError::InvalidLength(10).to_string(), "expected 6 hex digits, got 10");
    assert_eq!(
        HexParseError::InvalidLength(1234567).to_string(),
        "expected 6 hex digits, got 1234567"
    );
}

#[test]
fn all_colors_is_the_four_groups_in_order() {
    let p = NordPalette::nord();
    let mut expected = Vec::new();
    expected.extend_from_slice(&p.polar_night);
    expected.extend_from_slice(&p.snow_storm);
    expected.extend_from_slice(&p.frost);
    expected.extend_from_slice(&p.aurora);
    assert_eq!(p.all_colors().to_vec(), expected);
}

#[test]
fn semantic_display_exact_text() {
    assert_eq!(
        SemanticColors::nord().to_string(),
        "SemanticColors { bg: #2E3440, fg: #D8DEE9, accent: #88C0D0, sel: #81A1C1, \
         err: #BF616A, warn: #EBCB8B, ok: #A3BE8C, muted: #4C566A, border: #434C5E }"
    );
}

#[test]
fn semantic_colors_come_from_custom_palette() {
    let mut p = NordPalette::nord();
    p.frost[1] = Color::new(1, 2, 3);
    p.aurora[3] = Color::new(4, 5, 6);
    let all = p.all_colors();
    let s = SemanticColors::from_palette(&p);
    for c in [
        s.background, s.foreground, s.accent, s.selection,
        s.error, s.warning, s.success, s.muted, s.border,
    ] {
        assert!(all.contains(&c));
    }
    assert_eq!(s.accent, Color::new(1, 2, 3));
    assert_eq!(s.success, Color::new(4, 5, 6));
}
