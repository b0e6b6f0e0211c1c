use irodori::{Color, NordPalette, SemanticColors};

#[test]
fn nord_background_is_nord0() {
    let colors = SemanticColors::nord();
    assert_eq!(colors.background.to_hex(), "#2E3440");
}

#[test]
fn nord_foreground_is_nord4() {
    let colors = SemanticColors::nord();
    assert_eq!(colors.foreground.to_hex(), "#D8DEE9");
}

#[test]
fn nord_accent_is_nord8() {
    let colors = SemanticColors::nord();
    assert_eq!(colors.accent.to_hex(), "#88C0D0");
}

#[test]
fn nord_selection_is_nord9() {
    let colors = SemanticColors::nord();
    assert_eq!(colors.selection.to_hex(), "#81A1C1");
}

#[test]
fn nord_error_is_nord11() {
    let colors = SemanticColors::nord();
    assert_eq!(colors.error.to_hex(), "#BF616A");
}

#[test]
fn nord_warning_is_nord13() {
    let colors = SemanticColors::nord();
    assert_eq!(colors.warning.to_hex(), "#EBCB8B");
}

#[test]
fn nord_success_is_nord14() {
    let colors = SemanticColors::nord();
    assert_eq!(colors.success.to_hex(), "#A3BE8C");
}

#[test]
fn nord_muted_is_nord3() {
    let colors = SemanticColors::nord();
    assert_eq!(colors.muted.to_hex(), "#4C566A");
}

#[test]
fn nord_border_is_nord2() {
    let colors = SemanticColors::nord();
    assert_eq!(colors.border.to_hex(), "#434C5E");
}

#[test]
fn default_is_nord() {
    assert_eq!(SemanticColors::default(), SemanticColors::nord());
}

#[test]
fn from_palette_matches_nord() {
    assert_eq!(SemanticColors::from_palette(&NordPalette::nord()), SemanticColors::nord());
}

#[test]
fn display_contains_hex_values() {
    let colors = SemanticColors::nord();
    let display = colors.to_string();
    assert!(display.contains("#2E3440"), "should contain background hex");
    assert!(display.contains("#88C0D0"), "should contain accent hex");
}

// -- Custom palette mapping -------------------------------------------

#[test]
fn from_custom_palette_maps_correctly() {
    let custom = NordPalette {
        polar_night: [
            Color::new(10, 10, 10),
            Color::new(20, 20, 20),
            Color::new(30, 30, 30),
            Color::new(40, 40, 40),
        ],
        snow_storm: [
            Color::new(200, 200, 200),
            Color::new(210, 210, 210),
            Color::new(220, 220, 220),
        ],
        frost: [
            Color::new(50, 100, 150),
            Color::new(60, 110, 160),
            Color::new(70, 120, 170),
            Color::new(80, 130, 180),
        ],
        aurora: [
            Color::new(200, 50, 50),
            Color::new(210, 100, 50),
            Color::new(220, 180, 80),
            Color::new(100, 180, 100),
            Color::new(150, 100, 150),
        ],
    };
    let sem = SemanticColors::from_palette(&custom);
    assert_eq!(sem.background, custom.polar_night[0]);
    assert_eq!(sem.foreground, custom.snow_storm[0]);
    assert_eq!(sem.accent, custom.frost[1]);
    assert_eq!(sem.selection, custom.frost[2]);
    assert_eq!(sem.error, custom.aurora[0]);
    assert_eq!(sem.warning, custom.aurora[2]);
    assert_eq!(sem.success, custom.aurora[3]);
    assert_eq!(sem.muted, custom.polar_night[3]);
    assert_eq!(sem.border, custom.polar_night[2]);
}

// -- All fields are distinct for Nord ---------------------------------

#[test]
fn nord_semantic_fields_are_distinct_colors() {
    let c = SemanticColors::nord();
    let all = [
        c.background, c.foreground, c.accent, c.selection,
        c.error, c.warning, c.success, c.muted, c.border,
    ];
    for i in 0..all.len() {
        for j in (i + 1)..all.len() {
            assert_ne!(all[i], all[j], "fields at index {i} and {j} should differ");
        }
    }
}

// -- Copy/Clone/Eq semantics ------------------------------------------

#[test]
fn semantic_colors_copy() {
    let a = SemanticColors::nord();
    let b = a; // Copy
    assert_eq!(a, b);
}

#[test]
#[allow(clippy::clone_on_copy)]
fn semantic_colors_clone() {
    let a = SemanticColors::nord();
    let b = a.clone();
    assert_eq!(a, b);
}

#[test]
fn semantic_colors_ne_when_field_differs() {
    let mut a = SemanticColors::nord();
    let b = SemanticColors::nord();
    a.background = Color::new(0, 0, 0);
    assert_ne!(a, b);
}

// -- Display format structure -----------------------------------------

#[test]
fn display_contains_all_semantic_labels() {
    let display = SemanticColors::nord().to_string();
    for label in &["bg:", "fg:", "accent:", "sel:", "err:", "warn:", "ok:", "muted:", "border:"] {
        assert!(display.contains(label), "display should contain '{label}': {display}");
    }
}

#[test]
fn display_contains_all_hex_values() {
    let c = SemanticColors::nord();
    let display = c.to_string();
    let expected_hexes = [
        c.background.to_hex(),
        c.foreground.to_hex(),
        c.accent.to_hex(),
        c.selection.to_hex(),
        c.error.to_hex(),
        c.warning.to_hex(),
        c.success.to_hex(),
        c.muted.to_hex(),
        c.border.to_hex(),
    ];
    for hex in &expected_hexes {
        assert!(display.contains(hex.as_str()), "display should contain {hex}: {display}");
    }
}

// -- all_colors integration -----------------------------------------------

#[test]
fn semantic_colors_are_subset_of_palette() {
    let all = NordPalette::nord().all_colors();
    let c = SemanticColors::nord();
    let semantic = [
        c.background, c.foreground, c.accent, c.selection,
        c.error, c.warning, c.success, c.muted, c.border,
    ];
    for s in &semantic {
        assert!(all.contains(s), "semantic color {} not found in palette", s.to_hex());
    }
}

#[test]
fn display_output_is_not_empty() {
    let display = SemanticColors::nord().to_string();
    assert!(!display.is_empty());
    assert!(display.starts_with("SemanticColors {"));
}
