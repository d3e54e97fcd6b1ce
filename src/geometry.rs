use vstd::prelude::*;

verus! {

/// A rectangle in sprite-sheet or screen coordinates.
#[derive(Clone, Copy, Debug, PartialEq, Eq, Structural)]
pub struct ClipRect {
    pub x: i32,
    pub y: i32,
    pub w: u32,
    pub h: u32,
}

impl ClipRect {
    pub fn new(x: i32, y: i32, w: u32, h: u32) -> (r: ClipRect)
        ensures
            r == (ClipRect { x, y, w, h }),
    {
        ClipRect { x, y, w, h }
    }
}

/// Shorthand for a rectangle in specifications.
pub open spec fn clip(x: i32, y: i32, w: u32, h: u32) -> ClipRect {
    ClipRect { x, y, w, h }
}

/// Half-open intervals `[a0, a0 + al)` and `[b0, b0 + bl)` share a point.
pub open spec fn spans_overlap(a0: int, al: int, b0: int, bl: int) -> bool {
    a0 < b0 + bl && b0 < a0 + al
}

/// Two `(x, y, w, h)` rectangles share interior area; touching edges do not count.
pub open spec fn rects_overlap(a: (i32, i32, u32, u32), b: (i32, i32, u32, u32)) -> bool {
    spans_overlap(a.0 as int, a.2 as int, b.0 as int, b.2 as int) && spans_overlap(
        a.1 as int,
        a.3 as int,
        b.1 as int,
        b.3 as int,
    )
}

/// Axis-aligned collision test on `(x, y, w, h)` rectangles.
pub fn rects_collide(a: (i32, i32, u32, u32), b: (i32, i32, u32, u32)) -> (r: bool)
    ensures
        r == rects_overlap(a, b),
{
    let (ax, ay, aw, ah) = a;
    let (bx, by, bw, bh) = b;
    (ax as i64) < (bx as i64) + (bw as i64) && (ax as i64) + (aw as i64) > (bx as i64) && (ay as i64)
        < (by as i64) + (bh as i64) && (ay as i64) + (ah as i64) > (by as i64)
}

/// Collision is symmetric, and rectangles that only share an edge do not collide.
pub proof fn lemma_collision_symmetric_and_strict(
    a: (i32, i32, u32, u32),
    b: (i32, i32, u32, u32),
)
    ensures
        rects_overlap(a, b) == rects_overlap(b, a),
        a.0 as int + a.2 as int == b.0 as int ==> !rects_overlap(a, b),
        b.0 as int + b.2 as int == a.0 as int ==> !rects_overlap(a, b),
        a.1 as int + a.3 as int == b.1 as int ==> !rects_overlap(a, b),
        b.1 as int + b.3 as int == a.1 as int ==> !rects_overlap(a, b),
{
}

} // verus!
