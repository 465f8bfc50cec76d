//! Geometry primitives: 2D integer vectors and axis-aligned bounding boxes
//! with overlap and penetration queries.

use vstd::prelude::*;

verus! {

/// Largest magnitude a box center coordinate may have.
pub const MAX_CENTER: i64 = 0x100_0000_0000;

/// Largest width or height a box may have.
pub const MAX_SIZE: i64 = 0x20_0000;

/// A 2D vector with integer coordinates.
#[derive(Clone, Copy, PartialEq, Eq, Structural, Debug)]
pub struct Vec2 {
    pub x: i64,
    pub y: i64,
}

/// An axis-aligned bounding box given by its center and its full
/// width/height. Edges sit on half-integers when a size is odd, so all edge
/// arithmetic below works on doubled coordinates, where edges are whole
/// numbers.
#[derive(Clone, Copy, PartialEq, Eq, Structural, Debug)]
pub struct Aabb {
    pub center: Vec2,
    pub size: Vec2,
}

impl Aabb {
    /// Left edge, in doubled coordinates.
    pub open spec fn left2(self) -> int {
        2 * self.center.x - self.size.x
    }

    /// Right edge, in doubled coordinates.
    pub open spec fn right2(self) -> int {
        2 * self.center.x + self.size.x
    }

    /// Bottom edge, in doubled coordinates.
    pub open spec fn bottom2(self) -> int {
        2 * self.center.y - self.size.y
    }

    /// Top edge, in doubled coordinates.
    pub open spec fn top2(self) -> int {
        2 * self.center.y + self.size.y
    }

    /// Coordinates small enough for exact edge arithmetic; sizes may be zero
    /// (a collapsed box contains only its center and overlaps nothing).
    pub open spec fn bounded(self) -> bool {
        &&& -MAX_CENTER <= self.center.x <= MAX_CENTER
        &&& -MAX_CENTER <= self.center.y <= MAX_CENTER
        &&& 0 <= self.size.x <= MAX_SIZE
        &&& 0 <= self.size.y <= MAX_SIZE
    }

    /// A well-formed box: bounded with strictly positive width and height.
    pub open spec fn wf(self) -> bool {
        &&& self.bounded()
        &&& self.size.x > 0
        &&& self.size.y > 0
    }

    /// Both sizes even: box edges lie on whole coordinates and penetration
    /// depths are whole numbers.
    pub open spec fn even_sized(self) -> bool {
        self.size.x % 2 == 0 && self.size.y % 2 == 0
    }

    /// The point (px, py) lies in the closed box.
    pub open spec fn spec_contains(self, px: int, py: int) -> bool {
        &&& self.left2() <= 2 * px <= self.right2()
        &&& self.bottom2() <= 2 * py <= self.top2()
    }

    /// Whether the point (px, py) lies in the closed box (edges count as
    /// inside).
    pub fn contains(&self, px: i64, py: i64) -> (r: bool)
        requires
            self.bounded(),
            -MAX_CENTER <= px <= MAX_CENTER,
            -MAX_CENTER <= py <= MAX_CENTER,
        ensures
            r == self.spec_contains(px as int, py as int),
    {
        let x2 = 2 * px;
        let y2 = 2 * py;
        2 * self.center.x - self.size.x <= x2 && x2 <= 2 * self.center.x + self.size.x
            && 2 * self.center.y - self.size.y <= y2 && y2 <= 2 * self.center.y + self.size.y
    }
}

/// Horizontal penetration depth of `a` and `b`, in doubled coordinates:
/// positive when the interiors overlap on the x axis, zero when tangent,
/// negative when apart.
pub open spec fn x_overlap2(a: Aabb, b: Aabb) -> int {
    vstd::math::min(a.right2(), b.right2()) - vstd::math::max(a.left2(), b.left2())
}

/// Vertical penetration depth of `a` and `b`, in doubled coordinates.
pub open spec fn y_overlap2(a: Aabb, b: Aabb) -> int {
    vstd::math::min(a.top2(), b.top2()) - vstd::math::max(a.bottom2(), b.bottom2())
}

/// The interiors of `a` and `b` overlap; boxes that merely touch do not
/// count.
pub open spec fn spec_overlaps(a: Aabb, b: Aabb) -> bool {
    x_overlap2(a, b) > 0 && y_overlap2(a, b) > 0
}

/// Whether the interiors of the two boxes overlap.
pub fn overlaps(a: &Aabb, b: &Aabb) -> (r: bool)
    requires
        a.bounded(),
        b.bounded(),
    ensures
        r == spec_overlaps(*a, *b),
{
    let a_l = 2 * a.center.x - a.size.x;
    let a_r = 2 * a.center.x + a.size.x;
    let a_b = 2 * a.center.y - a.size.y;
    let a_t = 2 * a.center.y + a.size.y;
    let b_l = 2 * b.center.x - b.size.x;
    let b_r = 2 * b.center.x + b.size.x;
    let b_b = 2 * b.center.y - b.size.y;
    let b_t = 2 * b.center.y + b.size.y;
    let xo = if a_r < b_r { a_r } else { b_r } - if a_l > b_l { a_l } else { b_l };
    let yo = if a_t < b_t { a_t } else { b_t } - if a_b > b_b { a_b } else { b_b };
    xo > 0 && yo > 0
}

/// Penetration of `b` into `a`: `Some` exactly when the boxes overlap, and
/// then the returned vector holds the (positive) penetration depth on each
/// axis. The caller picks the axis and direction of separation. Both boxes
/// must be even-sized so the depths are whole numbers.
pub fn displacement(a: &Aabb, b: &Aabb) -> (r: Option<Vec2>)
    requires
        a.wf(),
        b.wf(),
        a.even_sized(),
        b.even_sized(),
    ensures
        match r {
            Some(d) => {
                &&& spec_overlaps(*a, *b)
                &&& 2 * d.x == x_overlap2(*a, *b)
                &&& 2 * d.y == y_overlap2(*a, *b)
                &&& d.x > 0
                &&& d.y > 0
            },
            None => !spec_overlaps(*a, *b),
        },
{
    let a_l = 2 * a.center.x - a.size.x;
    let a_r = 2 * a.center.x + a.size.x;
    let a_b = 2 * a.center.y - a.size.y;
    let a_t = 2 * a.center.y + a.size.y;
    let b_l = 2 * b.center.x - b.size.x;
    let b_r = 2 * b.center.x + b.size.x;
    let b_b = 2 * b.center.y - b.size.y;
    let b_t = 2 * b.center.y + b.size.y;
    let xo = if a_r < b_r { a_r } else { b_r } - if a_l > b_l { a_l } else { b_l };
    let yo = if a_t < b_t { a_t } else { b_t } - if a_b > b_b { a_b } else { b_b };
    if xo > 0 && yo > 0 {
        Some(Vec2 { x: xo / 2, y: yo / 2 })
    } else {
        None
    }
}

/// `b` translated vertically by `dy` world units.
pub open spec fn shift_y(b: Aabb, dy: int) -> Aabb {
    Aabb { center: Vec2 { x: b.center.x, y: (b.center.y + dy) as i64 }, size: b.size }
}

/// `b` translated horizontally by `dx` world units.
pub open spec fn shift_x(b: Aabb, dx: int) -> Aabb {
    Aabb { center: Vec2 { x: (b.center.x + dx) as i64, y: b.center.y }, size: b.size }
}

/// Law: for an overlapping pair, applying the vertical penetration depth
/// upward separates the boxes exactly, leaving them tangent on the y axis —
/// provided `b` reaches past `a` upward (both its edges at or above `a`'s).
pub proof fn lemma_separate_up(a: Aabb, b: Aabb)
    requires
        a.wf(),
        b.wf(),
        a.even_sized(),
        b.even_sized(),
        spec_overlaps(a, b),
        b.bottom2() >= a.bottom2(),
        b.top2() >= a.top2(),
    ensures
        y_overlap2(a, shift_y(b, y_overlap2(a, b) / 2)) == 0,
        !spec_overlaps(a, shift_y(b, y_overlap2(a, b) / 2)),
{
    let d = y_overlap2(a, b) / 2;
    assert(2 * d == y_overlap2(a, b));
    assert(shift_y(b, d).center.y == b.center.y + d);
}

/// Law: the mirror image of `lemma_separate_up`, pushing `b` downward.
pub proof fn lemma_separate_down(a: Aabb, b: Aabb)
    requires
        a.wf(),
        b.wf(),
        a.even_sized(),
        b.even_sized(),
        spec_overlaps(a, b),
        b.bottom2() <= a.bottom2(),
        b.top2() <= a.top2(),
    ensures
        y_overlap2(a, shift_y(b, -(y_overlap2(a, b) / 2))) == 0,
        !spec_overlaps(a, shift_y(b, -(y_overlap2(a, b) / 2))),
{
    let d = y_overlap2(a, b) / 2;
    assert(2 * d == y_overlap2(a, b));
    assert(shift_y(b, -d).center.y == b.center.y - d);
}

/// Law: as `lemma_separate_up`, but on the x axis, pushing `b` to the right.
pub proof fn lemma_separate_right(a: Aabb, b: Aabb)
    requires
        a.wf(),
        b.wf(),
        a.even_sized(),
        b.even_sized(),
        spec_overlaps(a, b),
        b.left2() >= a.left2(),
        b.right2() >= a.right2(),
    ensures
        x_overlap2(a, shift_x(b, x_overlap2(a, b) / 2)) == 0,
        !spec_overlaps(a, shift_x(b, x_overlap2(a, b) / 2)),
{
    let d = x_overlap2(a, b) / 2;
    assert(2 * d == x_overlap2(a, b));
    assert(shift_x(b, d).center.x == b.center.x + d);
}

/// Law: as `lemma_separate_down`, but on the x axis, pushing `b` to the
/// left.
pub proof fn lemma_separate_left(a: Aabb, b: Aabb)
    requires
        a.wf(),
        b.wf(),
        a.even_sized(),
        b.even_sized(),
        spec_overlaps(a, b),
        b.left2() <= a.left2(),
        b.right2() <= a.right2(),
    ensures
        x_overlap2(a, shift_x(b, -(x_overlap2(a, b) / 2))) == 0,
        !spec_overlaps(a, shift_x(b, -(x_overlap2(a, b) / 2))),
{
    let d = x_overlap2(a, b) / 2;
    assert(2 * d == x_overlap2(a, b));
    assert(shift_x(b, -d).center.x == b.center.x - d);
}

} // verus!
