//! Integer document coordinates: 2-d vectors and axis-aligned bounding boxes.
//!
//! Document coordinates are whole units held in `i64`; a bounding box is the
//! pair of its minimum and maximum corner points.

use vstd::prelude::*;

verus! {

/// A 2-d vector (or point) in document coordinates.
#[derive(Clone, Copy, Debug, PartialEq, Eq, Structural)]
pub struct Vector2 {
    pub x: i64,
    pub y: i64,
}

/// An axis-aligned bounding box given by its minimum and maximum corners.
#[derive(Clone, Copy, Debug, PartialEq, Eq, Structural)]
pub struct Aabb {
    pub mins: Vector2,
    pub maxs: Vector2,
}

impl Vector2 {
    pub fn new(x: i64, y: i64) -> (r: Vector2)
        ensures
            r == (Vector2 { x, y }),
    {
        Vector2 { x, y }
    }
}

impl Aabb {
    pub fn new(mins: Vector2, maxs: Vector2) -> (r: Aabb)
        ensures
            r == (Aabb { mins, maxs }),
    {
        Aabb { mins, maxs }
    }
}

/// Whether shifting every coordinate of `b` by `o` stays within `i64`.
pub open spec fn translate_in_range(b: Aabb, o: Vector2) -> bool {
    &&& i64::MIN <= b.mins.x + o.x <= i64::MAX
    &&& i64::MIN <= b.mins.y + o.y <= i64::MAX
    &&& i64::MIN <= b.maxs.x + o.x <= i64::MAX
    &&& i64::MIN <= b.maxs.y + o.y <= i64::MAX
}

/// The box `b` rigidly shifted by the offset `o`.
pub open spec fn aabb_translated(b: Aabb, o: Vector2) -> Aabb
    recommends
        translate_in_range(b, o),
{
    Aabb {
        mins: Vector2 { x: (b.mins.x + o.x) as i64, y: (b.mins.y + o.y) as i64 },
        maxs: Vector2 { x: (b.maxs.x + o.x) as i64, y: (b.maxs.y + o.y) as i64 },
    }
}

/// The negation of an offset, where it is representable.
pub open spec fn vector2_neg(o: Vector2) -> Vector2
    recommends
        o.x != i64::MIN,
        o.y != i64::MIN,
{
    Vector2 { x: (-o.x) as i64, y: (-o.y) as i64 }
}

/// Translating a box by the zero offset leaves it exactly as it was.
pub proof fn lemma_translate_zero(b: Aabb)
    ensures
        aabb_translated(b, Vector2 { x: 0, y: 0 }) == b,
{
}

/// Translating a box by an offset and then by its negation restores the box
/// exactly.
pub proof fn lemma_translate_round_trip(b: Aabb, o: Vector2)
    requires
        o.x != i64::MIN,
        o.y != i64::MIN,
        translate_in_range(b, o),
    ensures
        aabb_translated(aabb_translated(b, o), vector2_neg(o)) == b,
{
}

} // verus!
