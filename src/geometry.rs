use vstd::prelude::*;

verus! {

/// Largest magnitude a coordinate may have, in pixels.
pub const COORD_LIMIT: i64 = 1_000_000_000;

/// The value `v` brought into `[-COORD_LIMIT, COORD_LIMIT]`.
pub open spec fn clamp_coord(v: int) -> int {
    if v < -COORD_LIMIT {
        -COORD_LIMIT as int
    } else if v > COORD_LIMIT {
        COORD_LIMIT as int
    } else {
        v
    }
}

/// A point in viewport space, in whole pixels.
#[derive(Clone, Copy, Debug, PartialEq, Eq, Structural)]
pub struct Point {
    pub x: i64,
    pub y: i64,
}

impl Point {
    /// Both coordinates lie within the coordinate range.
    pub open spec fn valid(self) -> bool {
        -COORD_LIMIT <= self.x <= COORD_LIMIT && -COORD_LIMIT <= self.y <= COORD_LIMIT
    }

    /// The point with the given coordinates.
    pub fn new(x: i64, y: i64) -> (r: Point)
        ensures
            r.x == x,
            r.y == y,
    {
        Point { x, y }
    }

    /// The origin `(0, 0)`.
    pub fn origin() -> (r: Point)
        ensures
            r.x == 0,
            r.y == 0,
            r.valid(),
    {
        Point { x: 0, y: 0 }
    }

    /// The point nearest to `(x, y)` whose coordinates lie in the coordinate range.
    pub fn clamped(x: i64, y: i64) -> (r: Point)
        ensures
            r.valid(),
            r.x == clamp_coord(x as int),
            r.y == clamp_coord(y as int),
    {
        Point { x: clamp_value(x), y: clamp_value(y) }
    }

    /// The vector from `origin` to `self`, that is `self - origin`.
    pub fn offset_from(self, origin: Point) -> (r: Point)
        requires
            self.valid(),
            origin.valid(),
        ensures
            r.x == self.x - origin.x,
            r.y == self.y - origin.y,
    {
        Point { x: self.x - origin.x, y: self.y - origin.y }
    }

    /// `self - offset`, brought into the coordinate range.
    pub fn minus_clamped(self, offset: Point) -> (r: Point)
        requires
            self.valid(),
            -2 * COORD_LIMIT <= offset.x <= 2 * COORD_LIMIT,
            -2 * COORD_LIMIT <= offset.y <= 2 * COORD_LIMIT,
        ensures
            r.valid(),
            r.x == clamp_coord(self.x - offset.x),
            r.y == clamp_coord(self.y - offset.y),
    {
        Point { x: clamp_value(self.x - offset.x), y: clamp_value(self.y - offset.y) }
    }
}

impl Default for Point {
    fn default() -> (r: Point)
        ensures
            r.x == 0,
            r.y == 0,
    {
        Point::origin()
    }
}

/// `v` brought into `[-COORD_LIMIT, COORD_LIMIT]`.
fn clamp_value(v: i64) -> (r: i64)
    ensures
        r == clamp_coord(v as int),
{
    if v < -COORD_LIMIT {
        -COORD_LIMIT
    } else if v > COORD_LIMIT {
        COORD_LIMIT
    } else {
        v
    }
}

/// An axis-aligned rectangle given by its edges, in viewport space.
#[derive(Clone, Copy, Debug, PartialEq, Eq, Structural)]
pub struct Rect {
    pub left: i64,
    pub top: i64,
    pub right: i64,
    pub bottom: i64,
}

impl Rect {
    /// `p` lies in the rectangle, its edges included.
    pub open spec fn spec_contains(self, p: Point) -> bool {
        self.left <= p.x <= self.right && self.top <= p.y <= self.bottom
    }

    /// The rectangle with the given edges.
    pub fn new(left: i64, top: i64, right: i64, bottom: i64) -> (r: Rect)
        ensures
            r.left == left,
            r.top == top,
            r.right == right,
            r.bottom == bottom,
    {
        Rect { left, top, right, bottom }
    }

    /// The rectangle whose top-left corner is `origin` and that extends
    /// `width` to the right and `height` downwards.
    pub fn from_origin_size(origin: Point, width: u32, height: u32) -> (r: Rect)
        requires
            origin.valid(),
        ensures
            r.left == origin.x,
            r.top == origin.y,
            r.right == origin.x + width,
            r.bottom == origin.y + height,
    {
        Rect {
            left: origin.x,
            top: origin.y,
            right: origin.x + width as i64,
            bottom: origin.y + height as i64,
        }
    }

    /// Whether `p` lies in the rectangle; points on an edge count as inside.
    pub fn contains(&self, p: Point) -> (r: bool)
        ensures
            r == self.spec_contains(p),
    {
        self.left <= p.x && p.x <= self.right && self.top <= p.y && p.y <= self.bottom
    }
}

} // verus!
