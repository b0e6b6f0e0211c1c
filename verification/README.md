# irodori

A theme and color system around the Nord palette, verified with Verus.

- `src/palette.rs`: `Color`, hex parsing (`Color::from_hex`, `FromStr`) and
  formatting (`Color::to_hex`), `HexParseError` and its message, the Nord
  palette (`NordPalette::nord`, `NordPalette::all_colors`), and the laws of
  hex parsing (round trip, optional `#`, case-insensitivity, success exactly on six hex digits).
- `src/semantic.rs`: `SemanticColors`, the mapping of palette slots to UI roles,
  its text form, and the law that every role's color comes from the palette.
- `app/lib.rs`: float conversions (sRGB/linear, interpolation, alpha) and copies
  of the types that carry serde derives, `Display` and `std::error::Error`.
