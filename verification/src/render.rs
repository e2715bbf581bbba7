//! The cached render representation of a stroke: a node holding the composed
//! SVG markup of the stroke at a given scale factor, regenerable at any time
//! and excluded from persisted state.

use vstd::prelude::*;

use crate::error::StrokeError;
use crate::geometry::{Aabb, Vector2};

verus! {

/// A derived, regenerable visual representation of a stroke: the markup it
/// renders, the bounds it covers, and the scale factor it was generated at.
#[derive(Clone, Debug)]
pub struct CairoNode {
    pub bounds: Aabb,
    pub scalefactor: u32,
    pub data: String,
}

/// Whether `n` is the placeholder node that a stroke carries before its
/// first regeneration.
pub open spec fn is_default_caironode(n: CairoNode) -> bool {
    &&& n.bounds == (Aabb {
        mins: Vector2 { x: 0, y: 0 },
        maxs: Vector2 { x: 0, y: 0 },
    })
    &&& n.scalefactor == 0
    &&& n.data@ == Seq::<char>::empty()
}

impl Default for CairoNode {
    /// The placeholder node: empty markup, empty bounds, scale factor zero.
    fn default() -> (n: CairoNode)
        ensures
            is_default_caironode(n),
    {
        CairoNode {
            bounds: Aabb { mins: Vector2 { x: 0, y: 0 }, maxs: Vector2 { x: 0, y: 0 } },
            scalefactor: 0,
            data: String::new(),
        }
    }
}

/// The placeholder render node used before a stroke's first regeneration.
pub fn default_caironode() -> (n: CairoNode)
    ensures
        is_default_caironode(n),
{
    CairoNode::default()
}

/// Whether `b` encloses a non-empty area, so that something can be rendered.
pub open spec fn bounds_nonempty(b: Aabb) -> bool {
    b.mins.x < b.maxs.x && b.mins.y < b.maxs.y
}

/// Generate the render node for composed SVG markup covering `bounds` at
/// `scalefactor`. Fails exactly when the bounds enclose no area.
pub fn gen_caironode_for_svg(bounds: Aabb, scalefactor: u32, svg: &str) -> (r: Result<
    CairoNode,
    StrokeError,
>)
    ensures
        match r {
            Ok(n) => bounds_nonempty(bounds) && n.bounds == bounds && n.scalefactor
                == scalefactor && n.data@ == svg@,
            Err(e) => !bounds_nonempty(bounds) && e == StrokeError::EmptyBounds,
        },
{
    if bounds.mins.x < bounds.maxs.x && bounds.mins.y < bounds.maxs.y {
        Ok(CairoNode { bounds, scalefactor, data: String::from_str(svg) })
    } else {
        Err(StrokeError::EmptyBounds)
    }
}

} // verus!
