use rnote::appsettings::{
    color_scheme_from_name, color_scheme_to_name, load_settings, pack_colors2, pack_colors8,
    save_to_settings, setup_settings, unpack_colors2, unpack_colors8, ColorScheme, ColorSettings,
    PackedColors2, PackedColors8, PenColors,
};
use rnote::color::Color;
use rnote::error::SettingsError;

fn palette(values: &[u32]) -> Vec<Color> {
    values.iter().map(|&v| Color::from_u32(v)).collect()
}

#[test]
fn color_from_u32_splits_channels() {
    let c = Color::from_u32(0x11223344);
    assert_eq!(
        c,
        Color {
            r: 0x11,
            g: 0x22,
            b: 0x33,
            a: 0x44
        }
    );
    assert_eq!(c.to_u32(), 0x11223344);
}

#[test]
fn eight_colors_round_trip_in_order() {
    let values: [u32; 8] = [
        0xff000000, 0x00ff0001, 0x0000ff02, 0x12345678, 0x9abcdef0, 0x00000000, 0xffffffff,
        0x01020304,
    ];
    let colors = palette(&values);
    let packed = pack_colors8(&colors).unwrap();
    assert_eq!(
        packed,
        PackedColors8 {
            c0: values[0],
            c1: values[1],
            c2: values[2],
            c3: values[3],
            c4: values[4],
            c5: values[5],
            c6: values[6],
            c7: values[7],
        }
    );
    assert_eq!(unpack_colors8(&packed), colors);
}

#[test]
fn two_colors_round_trip_in_order() {
    let colors = palette(&[0xdeadbeef, 0x0badf00d]);
    let packed = pack_colors2(&colors).unwrap();
    assert_eq!(
        packed,
        PackedColors2 {
            c0: 0xdeadbeef,
            c1: 0x0badf00d,
        }
    );
    assert_eq!(unpack_colors2(&packed), colors);
}

#[test]
fn packing_seven_colors_fails() {
    let colors = palette(&[1, 2, 3, 4, 5, 6, 7]);
    assert_eq!(
        pack_colors8(&colors).unwrap_err(),
        SettingsError::PaletteTooSmall
    );
}

#[test]
fn packing_one_color_fails_for_pairs() {
    let colors = palette(&[42]);
    assert_eq!(
        pack_colors2(&colors).unwrap_err(),
        SettingsError::PaletteTooSmall
    );
}

#[test]
fn packing_ignores_extra_colors() {
    let colors = palette(&[1, 2, 3, 4, 5, 6, 7, 8, 9]);
    let packed = pack_colors8(&colors).unwrap();
    assert_eq!(packed.c7, 8);
}

#[test]
fn load_then_save_restores_settings() {
    let stored = ColorSettings {
        markerpage_colors: PackedColors8 {
            c0: 1,
            c1: 2,
            c2: 3,
            c3: 4,
            c4: 5,
            c5: 6,
            c6: 7,
            c7: 8,
        },
        brushpage_colors: PackedColors8 {
            c0: 0xa0,
            c1: 0xa1,
            c2: 0xa2,
            c3: 0xa3,
            c4: 0xa4,
            c5: 0xa5,
            c6: 0xa6,
            c7: 0xa7,
        },
        shaperpage_colors: PackedColors2 { c0: 10, c1: 20 },
        shaperpage_fills: PackedColors2 { c0: 30, c1: 40 },
    };
    let palettes = load_settings(&stored);
    assert_eq!(palettes.marker_colors.len(), 8);
    assert_eq!(palettes.shaper_fills.len(), 2);
    let saved = save_to_settings(&palettes).unwrap();
    assert_eq!(saved, stored);
}

#[test]
fn save_fails_on_short_fill_palette() {
    let palettes = PenColors {
        marker_colors: palette(&[1, 2, 3, 4, 5, 6, 7, 8]),
        brush_colors: palette(&[1, 2, 3, 4, 5, 6, 7, 8]),
        shaper_colors: palette(&[10, 20]),
        shaper_fills: palette(&[30]),
    };
    assert_eq!(
        save_to_settings(&palettes).unwrap_err(),
        SettingsError::PaletteTooSmall
    );
}

#[test]
fn scheme_names_map_to_schemes() {
    assert_eq!(
        color_scheme_from_name(&"default".to_string()),
        Some(ColorScheme::Default)
    );
    assert_eq!(
        color_scheme_from_name(&"light".to_string()),
        Some(ColorScheme::ForceLight)
    );
    assert_eq!(
        color_scheme_from_name(&"dark".to_string()),
        Some(ColorScheme::ForceDark)
    );
    assert_eq!(color_scheme_from_name(&"sepia".to_string()), None);
}

#[test]
fn schemes_map_back_to_names() {
    assert_eq!(color_scheme_to_name(ColorScheme::Default).as_str(), "default");
    assert_eq!(color_scheme_to_name(ColorScheme::ForceLight).as_str(), "light");
    assert_eq!(color_scheme_to_name(ColorScheme::ForceDark).as_str(), "dark");
}

#[test]
fn scheme_round_trips_through_its_name() {
    for scheme in [
        ColorScheme::Default,
        ColorScheme::ForceLight,
        ColorScheme::ForceDark,
    ] {
        let name = color_scheme_to_name(scheme);
        assert_eq!(color_scheme_from_name(&name), Some(scheme));
    }
}

#[test]
fn binding_table_lists_every_bound_setting() {
    let table = setup_settings();
    assert_eq!(table.len(), 13);
    assert_eq!(table[0].key.as_str(), "color-scheme");
    assert_eq!(table[0].property.as_str(), "color-scheme");
    assert!(table[0].transformed);
    assert_eq!(table[1].key.as_str(), "workspace-dir");
    assert_eq!(table[1].property.as_str(), "file");
    assert!(table[1].transformed);
    assert_eq!(table[6].key.as_str(), "sheet-margin");
    assert!(!table[6].transformed);
    assert_eq!(table[9].key.as_str(), "markerpage-selected-color");
    assert_eq!(table[9].property.as_str(), "selected");
    assert_eq!(table[12].key.as_str(), "shaperpage-selected-fill");
    assert_eq!(table[12].property.as_str(), "selected");
}
