use vstd::prelude::*;

verus! {

/// A 2D vector with integer coordinates, used both for positions and for
/// rectangle extents. The host quantizes its own coordinates to integers
/// before handing them to this crate.
#[derive(Clone, Copy, Debug, PartialEq, Eq, Structural)]
pub struct IVec2 {
    pub x: i32,
    pub y: i32,
}

/// Whether `p` lies strictly inside the axis-aligned rectangle centered at
/// `center` with extents `size` (half-extents `size / 2` on each side).
/// The comparison is made on doubled coordinates, so an odd extent keeps its
/// exact half; a point exactly on any of the four edges does not count.
pub open spec fn strictly_inside(p: IVec2, center: IVec2, size: IVec2) -> bool {
    &&& 2 * center.x - size.x < 2 * p.x
    &&& 2 * p.x < 2 * center.x + size.x
    &&& 2 * center.y - size.y < 2 * p.y
    &&& 2 * p.y < 2 * center.y + size.y
}

/// Exclusive point-in-rectangle test: the executable form of
/// [`strictly_inside`]. Widening to `i64` keeps the doubled coordinates exact.
pub fn point_in_rect(p: IVec2, center: IVec2, size: IVec2) -> (r: bool)
    ensures
        r == strictly_inside(p, center, size),
{
    let px: i64 = p.x as i64;
    let py: i64 = p.y as i64;
    let cx: i64 = center.x as i64;
    let cy: i64 = center.y as i64;
    let sx: i64 = size.x as i64;
    let sy: i64 = size.y as i64;
    2 * cx - sx < 2 * px && 2 * px < 2 * cx + sx && 2 * cy - sy < 2 * py && 2 * py < 2 * cy + sy
}

} // verus!
