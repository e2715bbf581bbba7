use rnote::error::StrokeError;
use rnote::geometry::{Aabb, Vector2};
use rnote::vectorimage::VectorImage;

const SIZED_SVG: &str = "<?xml version=\"1.0\"?><svg width=\"120\" height=\"40\"><rect/></svg>";
const PLAIN_SVG: &str = "<svg><circle/></svg>";

#[test]
fn import_reads_declared_size() {
    let img = VectorImage::import_from_svg(SIZED_SVG, Vector2 { x: 5, y: 6 }).unwrap();
    assert_eq!(img.intrinsic_size, Vector2 { x: 120, y: 40 });
    assert_eq!(
        img.bounds,
        Aabb {
            mins: Vector2 { x: 5, y: 6 },
            maxs: Vector2 { x: 125, y: 46 },
        }
    );
    assert_eq!(
        img.svg_data.as_str(),
        "<svg width=\"120\" height=\"40\"><rect/></svg>"
    );
}

#[test]
fn import_without_declared_size_uses_default() {
    let img = VectorImage::import_from_svg(PLAIN_SVG, Vector2 { x: 1, y: 2 }).unwrap();
    assert_eq!(img.intrinsic_size, Vector2 { x: 500, y: 500 });
    assert_eq!(
        img.bounds,
        Aabb {
            mins: Vector2 { x: 1, y: 2 },
            maxs: Vector2 { x: 501, y: 502 },
        }
    );
}

#[test]
fn import_keeps_markup_without_declaration_unchanged() {
    let img = VectorImage::import_from_svg(PLAIN_SVG, Vector2 { x: 0, y: 0 }).unwrap();
    assert_eq!(img.svg_data.as_str(), PLAIN_SVG);
}

#[test]
fn import_far_position_overflows() {
    let r = VectorImage::import_from_svg(PLAIN_SVG, Vector2 { x: i64::MAX - 100, y: 0 });
    assert_eq!(r.unwrap_err(), StrokeError::BoundsOutOfRange);
}

#[test]
fn bounds_returns_stored_bounds() {
    let img = VectorImage::import_from_svg(SIZED_SVG, Vector2 { x: 5, y: 6 }).unwrap();
    assert_eq!(img.bounds(), img.bounds);
}

#[test]
fn translate_round_trip_restores_bounds() {
    let mut img = VectorImage::import_from_svg(SIZED_SVG, Vector2 { x: 5, y: 6 }).unwrap();
    let before = img.bounds;
    img.translate(Vector2 { x: 37, y: -80 });
    assert_eq!(
        img.bounds,
        Aabb {
            mins: Vector2 { x: 42, y: -74 },
            maxs: Vector2 { x: 162, y: -34 },
        }
    );
    img.translate(Vector2 { x: -37, y: 80 });
    assert_eq!(img.bounds, before);
}

#[test]
fn resize_replaces_bounds_unconditionally() {
    let target = Aabb {
        mins: Vector2 { x: -3, y: -4 },
        maxs: Vector2 { x: 30, y: 40 },
    };
    let mut a = VectorImage::import_from_svg(SIZED_SVG, Vector2 { x: 5, y: 6 }).unwrap();
    let mut b = VectorImage::import_from_svg(PLAIN_SVG, Vector2 { x: 1000, y: 2000 }).unwrap();
    a.resize(target);
    b.resize(target);
    assert_eq!(a.bounds, target);
    assert_eq!(b.bounds, target);
}

#[test]
fn gen_svg_data_zero_offset_uses_stored_bounds() {
    let img = VectorImage::import_from_svg(SIZED_SVG, Vector2 { x: 5, y: 6 }).unwrap();
    let svg = img.gen_svg_data(Vector2 { x: 0, y: 0 }).unwrap();
    assert_eq!(
        svg.as_str(),
        "<svg x=\"5\" y=\"6\" width=\"120\" height=\"40\" viewBox=\"0 0 120 40\" \
         preserveAspectRatio=\"none\" xmlns=\"http://www.w3.org/2000/svg\">\n\
         <svg width=\"120\" height=\"40\"><rect/></svg>\n</svg>"
    );
}

#[test]
fn gen_svg_data_offset_shifts_both_corners() {
    let img = VectorImage::import_from_svg(SIZED_SVG, Vector2 { x: 5, y: 6 }).unwrap();
    let svg = img.gen_svg_data(Vector2 { x: 7, y: -2 }).unwrap();
    assert_eq!(
        svg.as_str(),
        "<svg x=\"12\" y=\"4\" width=\"120\" height=\"40\" viewBox=\"0 0 120 40\" \
         preserveAspectRatio=\"none\" xmlns=\"http://www.w3.org/2000/svg\">\n\
         <svg width=\"120\" height=\"40\"><rect/></svg>\n</svg>"
    );
}

#[test]
fn gen_svg_data_shift_overflow_is_error() {
    let mut img = VectorImage::import_from_svg(SIZED_SVG, Vector2 { x: 0, y: 0 }).unwrap();
    img.resize(Aabb {
        mins: Vector2 { x: i64::MAX - 10, y: 0 },
        maxs: Vector2 { x: i64::MAX, y: 10 },
    });
    let r = img.gen_svg_data(Vector2 { x: 20, y: 0 });
    assert_eq!(r.unwrap_err(), StrokeError::BoundsOutOfRange);
}

#[test]
fn gen_svg_data_extent_overflow_is_error() {
    let mut img = VectorImage::import_from_svg(SIZED_SVG, Vector2 { x: 0, y: 0 }).unwrap();
    img.resize(Aabb {
        mins: Vector2 { x: i64::MIN, y: 0 },
        maxs: Vector2 { x: i64::MAX, y: 10 },
    });
    let r = img.gen_svg_data(Vector2 { x: 0, y: 0 });
    assert_eq!(r.unwrap_err(), StrokeError::BoundsOutOfRange);
}

#[test]
fn gen_caironode_composes_markup_with_header() {
    let img = VectorImage::import_from_svg(SIZED_SVG, Vector2 { x: 5, y: 6 }).unwrap();
    let node = img.gen_caironode(2).unwrap();
    assert_eq!(node.bounds, img.bounds);
    assert_eq!(node.scalefactor, 2);
    let body = img.gen_svg_data(Vector2 { x: 0, y: 0 }).unwrap();
    let expected = format!(
        "<?xml version=\"1.0\" encoding=\"UTF-8\" standalone=\"no\"?>\n{}",
        body
    );
    assert_eq!(node.data, expected);
}

#[test]
fn gen_caironode_empty_bounds_is_error() {
    let mut img = VectorImage::import_from_svg(SIZED_SVG, Vector2 { x: 5, y: 6 }).unwrap();
    img.resize(Aabb {
        mins: Vector2 { x: 9, y: 9 },
        maxs: Vector2 { x: 9, y: 9 },
    });
    assert_eq!(img.gen_caironode(1).unwrap_err(), StrokeError::EmptyBounds);
}

#[test]
fn update_caironode_caches_fresh_node() {
    let mut img = VectorImage::import_from_svg(SIZED_SVG, Vector2 { x: 5, y: 6 }).unwrap();
    assert_eq!(img.caironode.data.as_str(), "");
    img.update_caironode(2);
    assert_eq!(img.caironode.scalefactor, 2);
    assert_eq!(img.caironode.bounds, img.bounds);
    let expected = img.gen_caironode(2).unwrap();
    assert_eq!(img.caironode.data, expected.data);
}

#[test]
fn update_caironode_failure_keeps_previous_node() {
    let mut img = VectorImage::import_from_svg(SIZED_SVG, Vector2 { x: 5, y: 6 }).unwrap();
    img.update_caironode(2);
    let cached_data = img.caironode.data.clone();
    let cached_bounds = img.caironode.bounds;
    img.resize(Aabb {
        mins: Vector2 { x: 9, y: 9 },
        maxs: Vector2 { x: 9, y: 9 },
    });
    img.update_caironode(3);
    assert_eq!(img.caironode.data, cached_data);
    assert_eq!(img.caironode.bounds, cached_bounds);
    assert_eq!(img.caironode.scalefactor, 2);
}
