//! The vector-image stroke: an imported SVG document wrapped into the
//! application's drawable-stroke abstraction, with axis-aligned bounds in
//! document coordinates, the document's intrinsic size, its raw markup, and
//! a cached render node.

use vstd::prelude::*;

use crate::compose::{
    add_xml_header, add_xml_header_spec, extents_in_range, remove_xml_header,
    remove_xml_header_spec, svg_intrinsic_size, svg_intrinsic_size_spec, wrap_svg, wrap_svg_spec,
};
use crate::error::StrokeError;
use crate::geometry::{aabb_translated, translate_in_range, Aabb, Vector2};
use crate::render::{
    bounds_nonempty, default_caironode, gen_caironode_for_svg, is_default_caironode, CairoNode,
};

verus! {

/// Intrinsic width assumed for an SVG that declares no size of its own.
pub const SIZE_X_DEFAULT: i64 = 500;

/// Intrinsic height assumed for an SVG that declares no size of its own.
pub const SIZE_Y_DEFAULT: i64 = 500;

/// Default horizontal placement offset for imported content.
pub const OFFSET_X_DEFAULT: i64 = 28;

/// Default vertical placement offset for imported content.
pub const OFFSET_Y_DEFAULT: i64 = 28;

/// A vector-image stroke.
#[derive(Clone, Debug)]
pub struct VectorImage {
    /// Bounding box in document coordinates.
    pub bounds: Aabb,
    /// The natural size the imported SVG declares for itself.
    pub intrinsic_size: Vector2,
    /// The imported SVG markup, XML declaration stripped.
    pub svg_data: String,
    /// Cached render node; regenerate with `update_caironode` after mutating
    /// `bounds` or `svg_data`.
    pub caironode: CairoNode,
}

/// The intrinsic size used when importing `svg`: the size the document
/// declares, or the fixed default when it declares none.
pub open spec fn import_intrinsic_size(svg: Seq<char>) -> Vector2 {
    match svg_intrinsic_size_spec(svg) {
        Some(v) => v,
        None => Vector2 { x: SIZE_X_DEFAULT, y: SIZE_Y_DEFAULT },
    }
}

/// Whether the bounds of an import at `pos` stay representable.
pub open spec fn import_in_range(svg: Seq<char>, pos: Vector2) -> bool {
    let isz = import_intrinsic_size(svg);
    &&& i64::MIN <= pos.x + isz.x <= i64::MAX
    &&& i64::MIN <= pos.y + isz.y <= i64::MAX
}

/// Whether `gen_svg_data` can emit markup for `img` at `offset`: the shifted
/// corners and the extents must stay representable.
pub open spec fn gen_svg_in_range(img: VectorImage, offset: Vector2) -> bool {
    translate_in_range(img.bounds, offset) && extents_in_range(img.bounds)
}

/// Whether `gen_caironode` succeeds on `img`: the markup must be emittable
/// and the bounds must enclose a non-empty area.
pub open spec fn gen_caironode_ok(img: VectorImage) -> bool {
    extents_in_range(img.bounds) && bounds_nonempty(img.bounds)
}

/// `a + b` where the sum is representable, `None` where it is not.
fn checked_add_i64(a: i64, b: i64) -> (r: Option<i64>)
    ensures
        match r {
            Some(v) => i64::MIN <= a + b <= i64::MAX && v == a + b,
            None => !(i64::MIN <= a + b <= i64::MAX),
        },
{
    if b >= 0 {
        if a > i64::MAX - b {
            None
        } else {
            Some(a + b)
        }
    } else {
        if a < i64::MIN - b {
            None
        } else {
            Some(a + b)
        }
    }
}

/// `a - b` where the difference is representable, `None` where it is not.
fn checked_sub_i64(a: i64, b: i64) -> (r: Option<i64>)
    ensures
        match r {
            Some(v) => i64::MIN <= a - b <= i64::MAX && v == a - b,
            None => !(i64::MIN <= a - b <= i64::MAX),
        },
{
    if b <= 0 {
        if a > i64::MAX + b {
            None
        } else {
            Some(a - b)
        }
    } else {
        if a < i64::MIN + b {
            None
        } else {
            Some(a - b)
        }
    }
}

impl VectorImage {
    /// The current bounding box.
    pub fn bounds(&self) -> (r: Aabb)
        ensures
            r == self.bounds,
    {
        self.bounds
    }

    /// Shift the bounds rigidly by `offset`. The cached render node is not
    /// touched; regenerate it separately.
    pub fn translate(&mut self, offset: Vector2)
        requires
            translate_in_range(old(self).bounds, offset),
        ensures
            final(self).bounds == aabb_translated(old(self).bounds, offset),
            final(self).intrinsic_size == old(self).intrinsic_size,
            final(self).svg_data == old(self).svg_data,
            final(self).caironode == old(self).caironode,
    {
        self.bounds = Aabb {
            mins: Vector2 { x: self.bounds.mins.x + offset.x, y: self.bounds.mins.y + offset.y },
            maxs: Vector2 { x: self.bounds.maxs.x + offset.x, y: self.bounds.maxs.y + offset.y },
        };
    }

    /// Replace the bounds outright, whatever they were. The cached render
    /// node is not touched; regenerate it separately.
    pub fn resize(&mut self, new_bounds: Aabb)
        ensures
            final(self).bounds == new_bounds,
            final(self).intrinsic_size == old(self).intrinsic_size,
            final(self).svg_data == old(self).svg_data,
            final(self).caironode == old(self).caironode,
    {
        self.bounds = new_bounds;
    }

    /// Emit the stroke as wrapped SVG markup, placed at the stored bounds
    /// shifted by `offset` and annotated with the intrinsic size as view
    /// box. Fails exactly when a shifted corner or an extent leaves the
    /// representable range.
    pub fn gen_svg_data(&self, offset: Vector2) -> (r: Result<String, StrokeError>)
        ensures
            match r {
                Ok(svg) => gen_svg_in_range(*self, offset) && svg@ == wrap_svg_spec(
                    self.svg_data@,
                    aabb_translated(self.bounds, offset),
                    self.intrinsic_size,
                ),
                Err(e) => !gen_svg_in_range(*self, offset) && e == StrokeError::BoundsOutOfRange,
            },
    {
        let min_x = checked_add_i64(self.bounds.mins.x, offset.x);
        let min_y = checked_add_i64(self.bounds.mins.y, offset.y);
        let max_x = checked_add_i64(self.bounds.maxs.x, offset.x);
        let max_y = checked_add_i64(self.bounds.maxs.y, offset.y);
        let width = checked_sub_i64(self.bounds.maxs.x, self.bounds.mins.x);
        let height = checked_sub_i64(self.bounds.maxs.y, self.bounds.mins.y);
        match (min_x, min_y, max_x, max_y, width, height) {
            (Some(min_x), Some(min_y), Some(max_x), Some(max_y), Some(_), Some(_)) => {
                let shifted = Aabb {
                    mins: Vector2 { x: min_x, y: min_y },
                    maxs: Vector2 { x: max_x, y: max_y },
                };
                Ok(wrap_svg(self.svg_data.as_str(), shifted, self.intrinsic_size))
            },
            _ => Err(StrokeError::BoundsOutOfRange),
        }
    }

    /// Produce a fresh render node from the current bounds and markup,
    /// without mutating the stroke. Fails exactly when the markup cannot be
    /// emitted or the bounds enclose no area.
    pub fn gen_caironode(&self, scalefactor: u32) -> (r: Result<CairoNode, StrokeError>)
        ensures
            match r {
                Ok(n) => gen_caironode_ok(*self) && n.bounds == self.bounds && n.scalefactor
                    == scalefactor && n.data@ == add_xml_header_spec(
                    wrap_svg_spec(self.svg_data@, self.bounds, self.intrinsic_size),
                ),
                Err(e) => !gen_caironode_ok(*self) && e == (if !extents_in_range(self.bounds) {
                    StrokeError::BoundsOutOfRange
                } else {
                    StrokeError::EmptyBounds
                }),
            },
    {
        let zero = Vector2 { x: 0, y: 0 };
        proof {
            assert(aabb_translated(self.bounds, zero) == self.bounds);
        }
        match self.gen_svg_data(zero) {
            Ok(svg) => {
                let with_header = add_xml_header(svg.as_str());
                gen_caironode_for_svg(self.bounds, scalefactor, with_header.as_str())
            },
            Err(e) => Err(e),
        }
    }

    /// Regenerate the cached render node at `scalefactor`. On failure the
    /// previously cached node is kept unchanged; nothing else is mutated
    /// either way.
    pub fn update_caironode(&mut self, scalefactor: u32)
        ensures
            final(self).bounds == old(self).bounds,
            final(self).intrinsic_size == old(self).intrinsic_size,
            final(self).svg_data == old(self).svg_data,
            gen_caironode_ok(*old(self)) ==> {
                &&& final(self).caironode.bounds == old(self).bounds
                &&& final(self).caironode.scalefactor == scalefactor
                &&& final(self).caironode.data@ == add_xml_header_spec(
                    wrap_svg_spec(
                        old(self).svg_data@,
                        old(self).bounds,
                        old(self).intrinsic_size,
                    ),
                )
            },
            !gen_caironode_ok(*old(self)) ==> final(self).caironode == old(self).caironode,
    {
        match self.gen_caironode(scalefactor) {
            Ok(caironode) => {
                self.caironode = caironode;
            },
            Err(_) => {},
        }
    }

    /// Import an SVG document as a vector-image stroke placed at `pos`: the
    /// XML declaration is stripped from the stored markup, the intrinsic
    /// size is read from the document (or defaulted when undeclared), and
    /// the bounds span that size from `pos`. Fails exactly when a corner of
    /// those bounds is unrepresentable.
    pub fn import_from_svg(svg: &str, pos: Vector2) -> (r: Result<VectorImage, StrokeError>)
        ensures
            match r {
                Ok(img) => {
                    let isz = import_intrinsic_size(svg@);
                    &&& import_in_range(svg@, pos)
                    &&& img.bounds == (Aabb {
                        mins: pos,
                        maxs: Vector2 { x: (pos.x + isz.x) as i64, y: (pos.y + isz.y) as i64 },
                    })
                    &&& img.intrinsic_size == isz
                    &&& img.svg_data@ == remove_xml_header_spec(svg@)
                    &&& is_default_caironode(img.caironode)
                },
                Err(e) => !import_in_range(svg@, pos) && e == StrokeError::BoundsOutOfRange,
            },
    {
        let svg_data = remove_xml_header(svg);
        let intrinsic_size = match svg_intrinsic_size(svg) {
            Some(v) => v,
            None => Vector2 { x: SIZE_X_DEFAULT, y: SIZE_Y_DEFAULT },
        };
        let max_x = checked_add_i64(pos.x, intrinsic_size.x);
        let max_y = checked_add_i64(pos.y, intrinsic_size.y);
        match (max_x, max_y) {
            (Some(max_x), Some(max_y)) => Ok(
                VectorImage {
                    bounds: Aabb { mins: pos, maxs: Vector2 { x: max_x, y: max_y } },
                    intrinsic_size,
                    svg_data,
                    caironode: default_caironode(),
                },
            ),
            _ => Err(StrokeError::BoundsOutOfRange),
        }
    }
}

} // verus!
