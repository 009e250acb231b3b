//! Integer canvas geometry: pointer positions, points, quads, the drag
//! threshold and the construction box of a resize gesture.

use vstd::prelude::*;

verus! {

/// A pointer position on the canvas, in whole canvas units.
#[derive(Clone, Copy, Debug, PartialEq, Eq, Structural)]
pub struct MousePosition {
    pub x: i32,
    pub y: i32,
}

/// A point on the canvas. Points derived from pointer positions stay well
/// inside the `i64` range (see [`in_bounds`]).
#[derive(Clone, Copy, Debug, PartialEq, Eq, Structural)]
pub struct Point {
    pub x: i64,
    pub y: i64,
}

/// An axis-aligned quad given by one corner and the signed offset to the
/// opposite corner.
#[derive(Clone, Copy, Debug, PartialEq, Eq, Structural)]
pub struct Quad {
    pub origin: Point,
    pub size: Point,
}

/// Largest distance from zero of a coordinate in a construction box.
pub const COORD_BOUND: i64 = 0x4_0000_0000;

/// Displacement (in canvas units) up to which a gesture still counts as a click.
pub const DRAG_THRESHOLD: i64 = 1;

pub open spec fn in_bounds(p: Point) -> bool {
    -COORD_BOUND <= p.x <= COORD_BOUND && -COORD_BOUND <= p.y <= COORD_BOUND
}

pub open spec fn point_of(m: MousePosition) -> Point {
    Point { x: m.x as i64, y: m.y as i64 }
}

/// Squared euclidean distance between two points.
pub open spec fn sq_dist(a: Point, b: Point) -> int {
    (b.x - a.x) * (b.x - a.x) + (b.y - a.y) * (b.y - a.y)
}

/// A gesture from `a` to `b` is a drag exactly when its squared displacement
/// exceeds the squared threshold.
pub open spec fn is_drag(a: Point, b: Point) -> bool {
    sq_dist(a, b) > DRAG_THRESHOLD * DRAG_THRESHOLD
}

pub open spec fn abs(v: int) -> int {
    if v < 0 { -v } else { v }
}

/// `m` carrying the sign of `v`, zero counting as positive.
pub open spec fn with_sign_of(m: int, v: int) -> int {
    if v < 0 { -m } else { m }
}

pub open spec fn max(a: int, b: int) -> int {
    if a >= b { a } else { b }
}

/// The offset from the anchor to the live corner of a construction box: the
/// pointer's displacement, squared up to its larger side when the aspect is locked.
pub open spec fn box_offset(anchor: MousePosition, mouse: MousePosition, lock_ratio: bool) -> (int, int) {
    let dx = mouse.x - anchor.x;
    let dy = mouse.y - anchor.y;
    if lock_ratio {
        let m = max(abs(dx), abs(dy));
        (with_sign_of(m, dx), with_sign_of(m, dy))
    } else {
        (dx, dy)
    }
}

/// The two corners of the construction box of a drag from `anchor` to `mouse`.
/// The live corner is the anchor moved by [`box_offset`]; the other corner is
/// the anchor itself, or its mirror image through the anchor when the box is
/// drawn from its center.
pub open spec fn box_points(anchor: MousePosition, mouse: MousePosition, center: bool, lock_ratio: bool) -> (Point, Point) {
    let (ox, oy) = box_offset(anchor, mouse, lock_ratio);
    let live = Point { x: (anchor.x + ox) as i64, y: (anchor.y + oy) as i64 };
    let other = if center {
        Point { x: (anchor.x - ox) as i64, y: (anchor.y - oy) as i64 }
    } else {
        point_of(anchor)
    };
    (other, live)
}

impl Quad {
    /// The quad spanned by two corners.
    pub open spec fn spanned(a: Point, b: Point) -> Quad {
        Quad { origin: a, size: Point { x: (b.x - a.x) as i64, y: (b.y - a.y) as i64 } }
    }

    pub open spec fn min_x(self) -> int {
        if self.size.x < 0 { self.origin.x + self.size.x } else { self.origin.x as int }
    }

    pub open spec fn max_x(self) -> int {
        if self.size.x < 0 { self.origin.x as int } else { self.origin.x + self.size.x }
    }

    pub open spec fn min_y(self) -> int {
        if self.size.y < 0 { self.origin.y + self.size.y } else { self.origin.y as int }
    }

    pub open spec fn max_y(self) -> int {
        if self.size.y < 0 { self.origin.y as int } else { self.origin.y + self.size.y }
    }

    /// The quad, its border included, holds the point.
    pub open spec fn holds(self, p: Point) -> bool {
        self.min_x() <= p.x <= self.max_x() && self.min_y() <= p.y <= self.max_y()
    }

    /// The two quads share at least one point.
    pub open spec fn meets(self, o: Quad) -> bool {
        self.min_x() <= o.max_x() && o.min_x() <= self.max_x() && self.min_y() <= o.max_y() && o.min_y()
            <= self.max_y()
    }

    /// The quad spanned by the two corners of a construction box.
    pub fn from_box(corners: [Point; 2]) -> (r: Quad)
        requires
            in_bounds(corners[0]),
            in_bounds(corners[1]),
        ensures
            r == Quad::spanned(corners[0], corners[1]),
    {
        let a = corners[0];
        let b = corners[1];
        Quad { origin: a, size: Point { x: b.x - a.x, y: b.y - a.y } }
    }

    fn span(lo: i64, extent: i64) -> (r: (i128, i128))
        ensures
            r.0 == (if extent < 0 { lo + extent } else { lo as int }),
            r.1 == (if extent < 0 { lo as int } else { lo + extent }),
    {
        let far = lo as i128 + extent as i128;
        if extent < 0 {
            (far, lo as i128)
        } else {
            (lo as i128, far)
        }
    }

    /// Whether the quad, its border included, holds `p`.
    pub fn contains(&self, p: Point) -> (r: bool)
        ensures
            r == self.holds(p),
    {
        let (x0, x1) = Quad::span(self.origin.x, self.size.x);
        let (y0, y1) = Quad::span(self.origin.y, self.size.y);
        x0 <= p.x as i128 && p.x as i128 <= x1 && y0 <= p.y as i128 && p.y as i128 <= y1
    }

    /// Whether the two quads share at least one point.
    pub fn intersects(&self, o: &Quad) -> (r: bool)
        ensures
            r == self.meets(*o),
    {
        let (ax0, ax1) = Quad::span(self.origin.x, self.size.x);
        let (ay0, ay1) = Quad::span(self.origin.y, self.size.y);
        let (bx0, bx1) = Quad::span(o.origin.x, o.size.x);
        let (by0, by1) = Quad::span(o.origin.y, o.size.y);
        ax0 <= bx1 && bx0 <= ax1 && ay0 <= by1 && by0 <= ay1
    }
}

/// Whether a gesture from `start` to `end` moved further than the drag
/// threshold. A displacement exactly at the threshold is a click.
pub fn has_dragged(start: Point, end: Point) -> (r: bool)
    requires
        in_bounds(start),
        in_bounds(end),
    ensures
        r == is_drag(start, end),
{
    let dx: i128 = end.x as i128 - start.x as i128;
    let dy: i128 = end.y as i128 - start.y as i128;
    assert(0 <= dx * dx <= 0x10_0000_0000 * 0x10_0000_0000) by (nonlinear_arith)
        requires
            -0x10_0000_0000 <= dx <= 0x10_0000_0000,
    ;
    assert(0 <= dy * dy <= 0x10_0000_0000 * 0x10_0000_0000) by (nonlinear_arith)
        requires
            -0x10_0000_0000 <= dy <= 0x10_0000_0000,
    ;
    let t: i128 = DRAG_THRESHOLD as i128;
    dx * dx + dy * dy > t * t
}

/// A gesture whose squared displacement equals the squared threshold is a click.
pub proof fn lemma_threshold_is_click(start: Point, end: Point)
    requires
        sq_dist(start, end) == DRAG_THRESHOLD * DRAG_THRESHOLD,
    ensures
        !is_drag(start, end),
{
}

/// Absolute distance between two bounded coordinates.
pub fn extent(a: i64, b: i64) -> (r: u64)
    requires
        -COORD_BOUND <= a <= COORD_BOUND,
        -COORD_BOUND <= b <= COORD_BOUND,
    ensures
        r == abs(b - a),
{
    if b >= a {
        (b - a) as u64
    } else {
        (a - b) as u64
    }
}

/// The corners of the construction box of a drag from `anchor` to `mouse`.
/// Drawn from the center, the box is symmetric about the anchor; with the
/// aspect locked it is square; otherwise its first corner is the anchor.
pub fn calculate_points(anchor: MousePosition, mouse: MousePosition, center: bool, lock_ratio: bool) -> (r: [Point; 2])
    ensures
        (r[0], r[1]) == box_points(anchor, mouse, center, lock_ratio),
        in_bounds(r[0]),
        in_bounds(r[1]),
        center ==> r[0].x + r[1].x == 2 * anchor.x && r[0].y + r[1].y == 2 * anchor.y,
        !center ==> r[0] == point_of(anchor),
        lock_ratio ==> abs(r[1].x - r[0].x) == abs(r[1].y - r[0].y),
{
    let ax = anchor.x as i64;
    let ay = anchor.y as i64;
    let mut dx: i64 = mouse.x as i64 - ax;
    let mut dy: i64 = mouse.y as i64 - ay;
    if lock_ratio {
        let wx: i64 = if dx < 0 { -dx } else { dx };
        let wy: i64 = if dy < 0 { -dy } else { dy };
        let m: i64 = if wx >= wy { wx } else { wy };
        dx = if dx < 0 { -m } else { m };
        dy = if dy < 0 { -m } else { m };
    }
    let live = Point { x: ax + dx, y: ay + dy };
    let other = if center {
        Point { x: ax - dx, y: ay - dy }
    } else {
        Point { x: ax, y: ay }
    };
    [other, live]
}

} // verus!
