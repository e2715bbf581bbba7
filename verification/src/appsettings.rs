//! The pure half of settings synchronization: the declarative table of
//! continuously bound settings, the color-scheme value transforms used by
//! the `color-scheme` binding, and the point-in-time packing and unpacking
//! of color palettes into the fixed-arity tuples the settings store holds.

use vstd::prelude::*;
use vstd::string::*;

use crate::color::{
    color_from_u32_spec, color_to_u32_spec, lemma_color_round_trip, lemma_u32_round_trip, Color,
};
use crate::error::SettingsError;

verus! {

// ---------------------------------------------------------------------------
// Color palettes and the settings tuples that persist them
// ---------------------------------------------------------------------------
/// An eight-slot color tuple as held by the settings store, order
/// significant.
#[derive(Clone, Copy, Debug, PartialEq, Eq, Structural)]
pub struct PackedColors8 {
    pub c0: u32,
    pub c1: u32,
    pub c2: u32,
    pub c3: u32,
    pub c4: u32,
    pub c5: u32,
    pub c6: u32,
    pub c7: u32,
}

/// A two-slot color tuple as held by the settings store, order significant.
#[derive(Clone, Copy, Debug, PartialEq, Eq, Structural)]
pub struct PackedColors2 {
    pub c0: u32,
    pub c1: u32,
}

/// The color sequence a stored eight-slot tuple unpacks to.
pub open spec fn unpack8_spec(t: PackedColors8) -> Seq<Color> {
    seq![
        color_from_u32_spec(t.c0),
        color_from_u32_spec(t.c1),
        color_from_u32_spec(t.c2),
        color_from_u32_spec(t.c3),
        color_from_u32_spec(t.c4),
        color_from_u32_spec(t.c5),
        color_from_u32_spec(t.c6),
        color_from_u32_spec(t.c7),
    ]
}

/// The eight-slot tuple packing the first eight colors of `v`.
pub open spec fn pack8_spec(v: Seq<Color>) -> PackedColors8
    recommends
        v.len() >= 8,
{
    PackedColors8 {
        c0: color_to_u32_spec(v[0]),
        c1: color_to_u32_spec(v[1]),
        c2: color_to_u32_spec(v[2]),
        c3: color_to_u32_spec(v[3]),
        c4: color_to_u32_spec(v[4]),
        c5: color_to_u32_spec(v[5]),
        c6: color_to_u32_spec(v[6]),
        c7: color_to_u32_spec(v[7]),
    }
}

/// The color sequence a stored two-slot tuple unpacks to.
pub open spec fn unpack2_spec(t: PackedColors2) -> Seq<Color> {
    seq![color_from_u32_spec(t.c0), color_from_u32_spec(t.c1)]
}

/// The two-slot tuple packing the first two colors of `v`.
pub open spec fn pack2_spec(v: Seq<Color>) -> PackedColors2
    recommends
        v.len() >= 2,
{
    PackedColors2 { c0: color_to_u32_spec(v[0]), c1: color_to_u32_spec(v[1]) }
}

/// Unpack a stored eight-slot tuple into its color sequence, in order.
pub fn unpack_colors8(t: &PackedColors8) -> (v: Vec<Color>)
    ensures
        v@ == unpack8_spec(*t),
{
    let mut v: Vec<Color> = Vec::new();
    v.push(Color::from_u32(t.c0));
    v.push(Color::from_u32(t.c1));
    v.push(Color::from_u32(t.c2));
    v.push(Color::from_u32(t.c3));
    v.push(Color::from_u32(t.c4));
    v.push(Color::from_u32(t.c5));
    v.push(Color::from_u32(t.c6));
    v.push(Color::from_u32(t.c7));
    proof {
        assert(v@ =~= unpack8_spec(*t));
    }
    v
}

/// Pack the first eight colors of a palette into a stored tuple. Fails
/// exactly when the palette holds fewer than eight colors: a short palette
/// must fail, not silently truncate.
pub fn pack_colors8(v: &Vec<Color>) -> (r: Result<PackedColors8, SettingsError>)
    ensures
        match r {
            Ok(t) => v@.len() >= 8 && t == pack8_spec(v@),
            Err(e) => v@.len() < 8 && e == SettingsError::PaletteTooSmall,
        },
{
    if v.len() < 8 {
        return Err(SettingsError::PaletteTooSmall);
    }
    Ok(
        PackedColors8 {
            c0: v[0].to_u32(),
            c1: v[1].to_u32(),
            c2: v[2].to_u32(),
            c3: v[3].to_u32(),
            c4: v[4].to_u32(),
            c5: v[5].to_u32(),
            c6: v[6].to_u32(),
            c7: v[7].to_u32(),
        },
    )
}

/// Unpack a stored two-slot tuple into its color sequence, in order.
pub fn unpack_colors2(t: &PackedColors2) -> (v: Vec<Color>)
    ensures
        v@ == unpack2_spec(*t),
{
    let mut v: Vec<Color> = Vec::new();
    v.push(Color::from_u32(t.c0));
    v.push(Color::from_u32(t.c1));
    proof {
        assert(v@ =~= unpack2_spec(*t));
    }
    v
}

/// Pack the first two colors of a palette into a stored tuple. Fails exactly
/// when the palette holds fewer than two colors.
pub fn pack_colors2(v: &Vec<Color>) -> (r: Result<PackedColors2, SettingsError>)
    ensures
        match r {
            Ok(t) => v@.len() >= 2 && t == pack2_spec(v@),
            Err(e) => v@.len() < 2 && e == SettingsError::PaletteTooSmall,
        },
{
    if v.len() < 2 {
        return Err(SettingsError::PaletteTooSmall);
    }
    Ok(PackedColors2 { c0: v[0].to_u32(), c1: v[1].to_u32() })
}

/// Packing a sequence of eight colors and unpacking the result reproduces
/// the sequence, in the same order.
pub proof fn lemma_colors8_round_trip(v: Seq<Color>)
    requires
        v.len() == 8,
    ensures
        unpack8_spec(pack8_spec(v)) == v,
{
    lemma_color_round_trip(v[0]);
    lemma_color_round_trip(v[1]);
    lemma_color_round_trip(v[2]);
    lemma_color_round_trip(v[3]);
    lemma_color_round_trip(v[4]);
    lemma_color_round_trip(v[5]);
    lemma_color_round_trip(v[6]);
    lemma_color_round_trip(v[7]);
    assert(unpack8_spec(pack8_spec(v)) =~= v);
}

/// Packing a sequence of two colors and unpacking the result reproduces the
/// sequence, in the same order.
pub proof fn lemma_colors2_round_trip(v: Seq<Color>)
    requires
        v.len() == 2,
    ensures
        unpack2_spec(pack2_spec(v)) == v,
{
    lemma_color_round_trip(v[0]);
    lemma_color_round_trip(v[1]);
    assert(unpack2_spec(pack2_spec(v)) =~= v);
}

/// Unpacking a stored eight-slot tuple and packing the result reproduces the
/// tuple exactly.
pub proof fn lemma_packed8_round_trip(t: PackedColors8)
    ensures
        pack8_spec(unpack8_spec(t)) == t,
{
    lemma_u32_round_trip(t.c0);
    lemma_u32_round_trip(t.c1);
    lemma_u32_round_trip(t.c2);
    lemma_u32_round_trip(t.c3);
    lemma_u32_round_trip(t.c4);
    lemma_u32_round_trip(t.c5);
    lemma_u32_round_trip(t.c6);
    lemma_u32_round_trip(t.c7);
}

/// Unpacking a stored two-slot tuple and packing the result reproduces the
/// tuple exactly.
pub proof fn lemma_packed2_round_trip(t: PackedColors2)
    ensures
        pack2_spec(unpack2_spec(t)) == t,
{
    lemma_u32_round_trip(t.c0);
    lemma_u32_round_trip(t.c1);
}

// ---------------------------------------------------------------------------
// Manual load/save of the palettes that are not continuously bound
// ---------------------------------------------------------------------------
/// The color tuples the settings store persists for the pen pages.
#[derive(Clone, Copy, Debug, PartialEq, Eq, Structural)]
pub struct ColorSettings {
    pub markerpage_colors: PackedColors8,
    pub brushpage_colors: PackedColors8,
    pub shaperpage_colors: PackedColors2,
    pub shaperpage_fills: PackedColors2,
}

/// The color palettes of the pen pages, as the pickers hold them.
#[derive(Clone, Debug)]
pub struct PenColors {
    pub marker_colors: Vec<Color>,
    pub brush_colors: Vec<Color>,
    pub shaper_colors: Vec<Color>,
    pub shaper_fills: Vec<Color>,
}

/// Unpack every persisted color tuple into the palette it loads, in stored
/// order.
pub fn load_settings(s: &ColorSettings) -> (p: PenColors)
    ensures
        p.marker_colors@ == unpack8_spec(s.markerpage_colors),
        p.brush_colors@ == unpack8_spec(s.brushpage_colors),
        p.shaper_colors@ == unpack2_spec(s.shaperpage_colors),
        p.shaper_fills@ == unpack2_spec(s.shaperpage_fills),
{
    PenColors {
        marker_colors: unpack_colors8(&s.markerpage_colors),
        brush_colors: unpack_colors8(&s.brushpage_colors),
        shaper_colors: unpack_colors2(&s.shaperpage_colors),
        shaper_fills: unpack_colors2(&s.shaperpage_fills),
    }
}

/// Whether every palette holds at least as many colors as its tuple's arity.
pub open spec fn palettes_complete(p: PenColors) -> bool {
    &&& p.marker_colors@.len() >= 8
    &&& p.brush_colors@.len() >= 8
    &&& p.shaper_colors@.len() >= 2
    &&& p.shaper_fills@.len() >= 2
}

/// Pack every palette into the tuple the settings store persists. Fails
/// exactly when some palette holds fewer colors than its tuple's arity.
pub fn save_to_settings(p: &PenColors) -> (r: Result<ColorSettings, SettingsError>)
    ensures
        match r {
            Ok(s) => {
                &&& palettes_complete(*p)
                &&& s.markerpage_colors == pack8_spec(p.marker_colors@)
                &&& s.brushpage_colors == pack8_spec(p.brush_colors@)
                &&& s.shaperpage_colors == pack2_spec(p.shaper_colors@)
                &&& s.shaperpage_fills == pack2_spec(p.shaper_fills@)
            },
            Err(e) => !palettes_complete(*p) && e == SettingsError::PaletteTooSmall,
        },
{
    let markerpage_colors = match pack_colors8(&p.marker_colors) {
        Ok(t) => t,
        Err(e) => {
            return Err(e);
        },
    };
    let brushpage_colors = match pack_colors8(&p.brush_colors) {
        Ok(t) => t,
        Err(e) => {
            return Err(e);
        },
    };
    let shaperpage_colors = match pack_colors2(&p.shaper_colors) {
        Ok(t) => t,
        Err(e) => {
            return Err(e);
        },
    };
    let shaperpage_fills = match pack_colors2(&p.shaper_fills) {
        Ok(t) => t,
        Err(e) => {
            return Err(e);
        },
    };
    Ok(ColorSettings { markerpage_colors, brushpage_colors, shaperpage_colors, shaperpage_fills })
}

/// Loading stored color settings into palettes and saving those palettes
/// back restores the stored settings exactly.
pub proof fn lemma_color_settings_round_trip(s: ColorSettings)
    ensures
        (ColorSettings {
            markerpage_colors: pack8_spec(unpack8_spec(s.markerpage_colors)),
            brushpage_colors: pack8_spec(unpack8_spec(s.brushpage_colors)),
            shaperpage_colors: pack2_spec(unpack2_spec(s.shaperpage_colors)),
            shaperpage_fills: pack2_spec(unpack2_spec(s.shaperpage_fills)),
        }) == s,
{
    lemma_packed8_round_trip(s.markerpage_colors);
    lemma_packed8_round_trip(s.brushpage_colors);
    lemma_packed2_round_trip(s.shaperpage_colors);
    lemma_packed2_round_trip(s.shaperpage_fills);
}

// ---------------------------------------------------------------------------
// The color-scheme value transforms
// ---------------------------------------------------------------------------
/// The color scheme a style manager can be forced to.
#[derive(Clone, Copy, Debug, PartialEq, Eq, Structural)]
pub enum ColorScheme {
    Default,
    ForceLight,
    ForceDark,
}

/// The scheme a stored `color-scheme` value maps to; `None` for an
/// unrecognized value, which leaves the widget property unchanged.
pub open spec fn color_scheme_from_name_spec(s: Seq<char>) -> Option<ColorScheme> {
    if s == "default"@ {
        Some(ColorScheme::Default)
    } else if s == "light"@ {
        Some(ColorScheme::ForceLight)
    } else if s == "dark"@ {
        Some(ColorScheme::ForceDark)
    } else {
        None
    }
}

/// The stored value a scheme maps back to; every scheme has one.
pub open spec fn color_scheme_to_name_spec(c: ColorScheme) -> Seq<char> {
    match c {
        ColorScheme::Default => "default"@,
        ColorScheme::ForceLight => "light"@,
        ColorScheme::ForceDark => "dark"@,
    }
}

/// Map a stored `color-scheme` value to the scheme it names.
pub fn color_scheme_from_name(name: &String) -> (r: Option<ColorScheme>)
    ensures
        r == color_scheme_from_name_spec(name@),
{
    if *name == String::from_str("default") {
        Some(ColorScheme::Default)
    } else if *name == String::from_str("light") {
        Some(ColorScheme::ForceLight)
    } else if *name == String::from_str("dark") {
        Some(ColorScheme::ForceDark)
    } else {
        None
    }
}

/// Map a scheme to the value stored for it.
pub fn color_scheme_to_name(c: ColorScheme) -> (r: String)
    ensures
        r@ == color_scheme_to_name_spec(c),
{
    match c {
        ColorScheme::Default => String::from_str("default"),
        ColorScheme::ForceLight => String::from_str("light"),
        ColorScheme::ForceDark => String::from_str("dark"),
    }
}

/// The two transforms invert each other: storing a scheme's name and mapping
/// it back yields the scheme, and a recognized stored value round-trips to
/// itself.
pub proof fn lemma_color_scheme_round_trip(c: ColorScheme, s: Seq<char>)
    ensures
        color_scheme_from_name_spec(color_scheme_to_name_spec(c)) == Some(c),
        color_scheme_from_name_spec(s) is Some ==> color_scheme_to_name_spec(
            color_scheme_from_name_spec(s)->Some_0,
        ) == s,
{
    reveal_strlit("default");
    reveal_strlit("light");
    reveal_strlit("dark");
    assert("default"@.len() == 7);
    assert("light"@.len() == 5);
    assert("dark"@.len() == 4);
}

// ---------------------------------------------------------------------------
// The declarative binding table
// ---------------------------------------------------------------------------
/// One continuously synchronized binding: a settings key, the widget
/// property it is bound to, and whether the pair carries value transforms in
/// each direction.
#[derive(Clone, Debug)]
pub struct SettingsBinding {
    pub key: String,
    pub property: String,
    pub transformed: bool,
}

fn binding(key: &str, property: &str, transformed: bool) -> (b: SettingsBinding)
    ensures
        b.key@ == key@,
        b.property@ == property@,
        b.transformed == transformed,
{
    SettingsBinding {
        key: String::from_str(key),
        property: String::from_str(property),
        transformed,
    }
}

/// The table of continuously bound settings, processed once at startup: each
/// entry keeps the settings store and the widget property equal from then
/// on. Only `color-scheme` (scheme names) and `workspace-dir` (a path
/// against a file object) carry value transforms.
pub fn setup_settings() -> (r: Vec<SettingsBinding>)
    ensures
        r@.len() == 13,
        r@[0].key@ == "color-scheme"@ && r@[0].property@ == "color-scheme"@ && r@[0].transformed,
        r@[1].key@ == "workspace-dir"@ && r@[1].property@ == "file"@ && r@[1].transformed,
        r@[2].key@ == "pen-sounds"@ && r@[2].property@ == "pen-sounds"@ && !r@[2].transformed,
        r@[3].key@ == "touch-drawing"@ && r@[3].property@ == "touch-drawing"@
            && !r@[3].transformed,
        r@[4].key@ == "endless-sheet"@ && r@[4].property@ == "endless-sheet"@
            && !r@[4].transformed,
        r@[5].key@ == "format-borders"@ && r@[5].property@ == "format-borders"@
            && !r@[5].transformed,
        r@[6].key@ == "sheet-margin"@ && r@[6].property@ == "sheet-margin"@
            && !r@[6].transformed,
        r@[7].key@ == "pdf-import-width"@ && r@[7].property@ == "pdf-import-width"@
            && !r@[7].transformed,
        r@[8].key@ == "pdf-import-as-vector"@ && r@[8].property@ == "pdf-import-as-vector"@
            && !r@[8].transformed,
        r@[9].key@ == "markerpage-selected-color"@ && r@[9].property@ == "selected"@
            && !r@[9].transformed,
        r@[10].key@ == "brushpage-selected-color"@ && r@[10].property@ == "selected"@
            && !r@[10].transformed,
        r@[11].key@ == "shaperpage-selected-color"@ && r@[11].property@ == "selected"@
            && !r@[11].transformed,
        r@[12].key@ == "shaperpage-selected-fill"@ && r@[12].property@ == "selected"@
            && !r@[12].transformed,
{
    let mut r: Vec<SettingsBinding> = Vec::new();
    r.push(binding("color-scheme", "color-scheme", true));
    r.push(binding("workspace-dir", "file", true));
    r.push(binding("pen-sounds", "pen-sounds", false));
    r.push(binding("touch-drawing", "touch-drawing", false));
    r.push(binding("endless-sheet", "endless-sheet", false));
    r.push(binding("format-borders", "format-borders", false));
    r.push(binding("sheet-margin", "sheet-margin", false));
    r.push(binding("pdf-import-width", "pdf-import-width", false));
    r.push(binding("pdf-import-as-vector", "pdf-import-as-vector", false));
    r.push(binding("markerpage-selected-color", "selected", false));
    r.push(binding("brushpage-selected-color", "selected", false));
    r.push(binding("shaperpage-selected-color", "selected", false));
    r.push(binding("shaperpage-selected-fill", "selected", false));
    r
}

} // verus!
