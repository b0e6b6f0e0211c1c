//! Semantic color mapping from palette colors to UI roles.

use vstd::prelude::*;

use crate::palette::{color_hex_chars, nord_spec, palette_colors, Color, NordPalette};

verus! {

/// Semantic color assignments for UI rendering.
#[derive(Debug, Clone, Copy, PartialEq, Eq, Structural)]
pub struct SemanticColors {
    /// Primary background color (darkest surface).
    pub background: Color,
    /// Primary foreground / text color.
    pub foreground: Color,
    /// Primary accent color (focus, active elements).
    pub accent: Color,
    /// Selection / highlight color.
    pub selection: Color,
    /// Error / danger indicator.
    pub error: Color,
    /// Warning indicator.
    pub warning: Color,
    /// Success indicator.
    pub success: Color,
    /// Muted / secondary text color.
    pub muted: Color,
    /// Border / separator color.
    pub border: Color,
}

/// The semantic mapping of a palette: which palette slot fills each UI role.
pub open spec fn semantic_from_palette(p: NordPalette) -> SemanticColors {
    SemanticColors {
        background: p.polar_night[0],
        foreground: p.snow_storm[0],
        accent: p.frost[1],
        selection: p.frost[2],
        error: p.aurora[0],
        warning: p.aurora[2],
        success: p.aurora[3],
        muted: p.polar_night[3],
        border: p.polar_night[2],
    }
}

/// The text form of a semantic color set: each role's short label and hex color.
pub open spec fn semantic_colors_chars(c: SemanticColors) -> Seq<char> {
    "SemanticColors { bg: "@ + color_hex_chars(c.background)
        + ", fg: "@ + color_hex_chars(c.foreground)
        + ", accent: "@ + color_hex_chars(c.accent)
        + ", sel: "@ + color_hex_chars(c.selection)
        + ", err: "@ + color_hex_chars(c.error)
        + ", warn: "@ + color_hex_chars(c.warning)
        + ", ok: "@ + color_hex_chars(c.success)
        + ", muted: "@ + color_hex_chars(c.muted)
        + ", border: "@ + color_hex_chars(c.border)
        + " }"@
}

impl SemanticColors {
    /// Returns the default Nord-based semantic color mapping.
    pub fn nord() -> (s: Self)
        ensures
            s == semantic_from_palette(nord_spec()),
    {
        Self::from_palette(&NordPalette::nord())
    }

    /// Constructs semantic colors from a [`NordPalette`].
    pub fn from_palette(palette: &NordPalette) -> (s: Self)
        ensures
            s == semantic_from_palette(*palette),
            s.background == palette.polar_night[0],
            s.foreground == palette.snow_storm[0],
            s.accent == palette.frost[1],
            s.selection == palette.frost[2],
            s.error == palette.aurora[0],
            s.warning == palette.aurora[2],
            s.success == palette.aurora[3],
            s.muted == palette.polar_night[3],
            s.border == palette.polar_night[2],
    {
        SemanticColors {
            background: palette.polar_night[0],
            foreground: palette.snow_storm[0],
            accent: palette.frost[1],
            selection: palette.frost[2],
            error: palette.aurora[0],
            warning: palette.aurora[2],
            success: palette.aurora[3],
            muted: palette.polar_night[3],
            border: palette.polar_night[2],
        }
    }

    /// The text form of the mapping, listing each role with its hex color.
    pub fn to_string(&self) -> (s: String)
        ensures
            s@ == semantic_colors_chars(*self),
    {
        let mut s = String::new();
        s.append("SemanticColors { bg: ");
        s.append(self.background.to_hex().as_str());
        s.append(", fg: ");
        s.append(self.foreground.to_hex().as_str());
        s.append(", accent: ");
        s.append(self.accent.to_hex().as_str());
        s.append(", sel: ");
        s.append(self.selection.to_hex().as_str());
        s.append(", err: ");
        s.append(self.error.to_hex().as_str());
        s.append(", warn: ");
        s.append(self.warning.to_hex().as_str());
        s.append(", ok: ");
        s.append(self.success.to_hex().as_str());
        s.append(", muted: ");
        s.append(self.muted.to_hex().as_str());
        s.append(", border: ");
        s.append(self.border.to_hex().as_str());
        s.append(" }");
        s
    }
}

/// Each role takes its color from a fixed palette slot, whatever the colors are:
/// background nord0, foreground nord4, accent nord8, selection nord9, error nord11,
/// warning nord13, success nord14, muted nord3, border nord2.
pub proof fn lemma_roles_take_fixed_slots(p: NordPalette)
    ensures
        semantic_from_palette(p).background == p.polar_night[0],
        semantic_from_palette(p).foreground == p.snow_storm[0],
        semantic_from_palette(p).accent == p.frost[1],
        semantic_from_palette(p).selection == p.frost[2],
        semantic_from_palette(p).error == p.aurora[0],
        semantic_from_palette(p).warning == p.aurora[2],
        semantic_from_palette(p).success == p.aurora[3],
        semantic_from_palette(p).muted == p.polar_night[3],
        semantic_from_palette(p).border == p.polar_night[2],
{
}

/// The text form has a fixed layout: after each role's label, at a fixed position,
/// stand the seven characters of that role's own color in hex, whatever the colors are.
pub proof fn lemma_text_layout(c: SemanticColors)
    ensures
        semantic_colors_chars(c).len() == 149,
        semantic_colors_chars(c).subrange(0, 21) == "SemanticColors { bg: "@,
        semantic_colors_chars(c).subrange(21, 28) == color_hex_chars(c.background),
        semantic_colors_chars(c).subrange(28, 34) == ", fg: "@,
        semantic_colors_chars(c).subrange(34, 41) == color_hex_chars(c.foreground),
        semantic_colors_chars(c).subrange(41, 51) == ", accent: "@,
        semantic_colors_chars(c).subrange(51, 58) == color_hex_chars(c.accent),
        semantic_colors_chars(c).subrange(58, 65) == ", sel: "@,
        semantic_colors_chars(c).subrange(65, 72) == color_hex_chars(c.selection),
        semantic_colors_chars(c).subrange(72, 79) == ", err: "@,
        semantic_colors_chars(c).subrange(79, 86) == color_hex_chars(c.error),
        semantic_colors_chars(c).subrange(86, 94) == ", warn: "@,
        semantic_colors_chars(c).subrange(94, 101) == color_hex_chars(c.warning),
        semantic_colors_chars(c).subrange(101, 107) == ", ok: "@,
        semantic_colors_chars(c).subrange(107, 114) == color_hex_chars(c.success),
        semantic_colors_chars(c).subrange(114, 123) == ", muted: "@,
        semantic_colors_chars(c).subrange(123, 130) == color_hex_chars(c.muted),
        semantic_colors_chars(c).subrange(130, 140) == ", border: "@,
        semantic_colors_chars(c).subrange(140, 147) == color_hex_chars(c.border),
        semantic_colors_chars(c).subrange(147, 149) == " }"@,
{
    reveal_strlit("SemanticColors { bg: ");
    reveal_strlit(", fg: ");
    reveal_strlit(", accent: ");
    reveal_strlit(", sel: ");
    reveal_strlit(", err: ");
    reveal_strlit(", warn: ");
    reveal_strlit(", ok: ");
    reveal_strlit(", muted: ");
    reveal_strlit(", border: ");
    reveal_strlit(" }");
    let t = semantic_colors_chars(c);
    assert(t.subrange(0, 21) =~= "SemanticColors { bg: "@);
    assert(t.subrange(21, 28) =~= color_hex_chars(c.background));
    assert(t.subrange(28, 34) =~= ", fg: "@);
    assert(t.subrange(34, 41) =~= color_hex_chars(c.foreground));
    assert(t.subrange(41, 51) =~= ", accent: "@);
    assert(t.subrange(51, 58) =~= color_hex_chars(c.accent));
    assert(t.subrange(58, 65) =~= ", sel: "@);
    assert(t.subrange(65, 72) =~= color_hex_chars(c.selection));
    assert(t.subrange(72, 79) =~= ", err: "@);
    assert(t.subrange(79, 86) =~= color_hex_chars(c.error));
    assert(t.subrange(86, 94) =~= ", warn: "@);
    assert(t.subrange(94, 101) =~= color_hex_chars(c.warning));
    assert(t.subrange(101, 107) =~= ", ok: "@);
    assert(t.subrange(107, 114) =~= color_hex_chars(c.success));
    assert(t.subrange(114, 123) =~= ", muted: "@);
    assert(t.subrange(123, 130) =~= color_hex_chars(c.muted));
    assert(t.subrange(130, 140) =~= ", border: "@);
    assert(t.subrange(140, 147) =~= color_hex_chars(c.border));
    assert(t.subrange(147, 149) =~= " }"@);
}

/// Every color of a semantic mapping is one of the sixteen colors of the palette
/// it was made from.
pub proof fn lemma_semantic_colors_come_from_palette(p: NordPalette)
    ensures
        ({
            let s = semantic_from_palette(p);
            let all = palette_colors(p);
            &&& all.contains(s.background)
            &&& all.contains(s.foreground)
            &&& all.contains(s.accent)
            &&& all.contains(s.selection)
            &&& all.contains(s.error)
            &&& all.contains(s.warning)
            &&& all.contains(s.success)
            &&& all.contains(s.muted)
            &&& all.contains(s.border)
        }),
{
    let all = palette_colors(p);
    assert(all[0] == p.polar_night[0]);
    assert(all[4] == p.snow_storm[0]);
    assert(all[8] == p.frost[1]);
    assert(all[9] == p.frost[2]);
    assert(all[11] == p.aurora[0]);
    assert(all[13] == p.aurora[2]);
    assert(all[14] == p.aurora[3]);
    assert(all[3] == p.polar_night[3]);
    assert(all[2] == p.polar_night[2]);
}

impl Default for SemanticColors {
    /// The default mapping is the Nord one.
    fn default() -> (s: Self)
        ensures
            s == semantic_from_palette(nord_spec()),
    {
        Self::nord()
    }
}

} // verus!
