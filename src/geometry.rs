use vstd::prelude::*;

verus! {

/// A point in layout pixels.
#[derive(Clone, Copy, Debug, PartialEq, Eq, Structural)]
pub struct Point {
    pub x: i64,
    pub y: i64,
}

/// A width and height in layout pixels.
#[derive(Clone, Copy, Debug, PartialEq, Eq, Structural)]
pub struct Size {
    pub width: i64,
    pub height: i64,
}

/// An axis-aligned rectangle given by its top-left corner and its size.
#[derive(Clone, Copy, Debug, PartialEq, Eq, Structural)]
pub struct Rect {
    pub origin: Point,
    pub size: Size,
}

/// Whether an integer fits in an `i64`.
pub open spec fn fits_i64(v: int) -> bool {
    i64::MIN <= v <= i64::MAX
}

/// The rectangle with origin `(x, y)` and size `w` by `h`, where all four fit.
pub open spec fn rect_of(x: int, y: int, w: int, h: int) -> Rect {
    Rect {
        origin: Point { x: x as i64, y: y as i64 },
        size: Size { width: w as i64, height: h as i64 },
    }
}

/// Whether `p` lies in `r`: the left and top edges are inside, the right and
/// bottom edges are not.
pub open spec fn rect_contains(r: Rect, p: Point) -> bool {
    r.origin.x <= p.x && p.x < r.origin.x + r.size.width
        && r.origin.y <= p.y && p.y < r.origin.y + r.size.height
}

/// Whether `r` moved by `offset` still has its origin inside `i64`.
pub open spec fn can_translate(r: Rect, offset: Point) -> bool {
    fits_i64(r.origin.x + offset.x) && fits_i64(r.origin.y + offset.y)
}

/// `r` moved by `offset`.
pub open spec fn translated(r: Rect, offset: Point) -> Rect {
    rect_of(r.origin.x + offset.x, r.origin.y + offset.y, r.size.width as int, r.size.height as int)
}

/// Whether `r` grown by `d` on every side still fits inside `i64`.
pub open spec fn can_inflate(r: Rect, d: int) -> bool {
    fits_i64(r.origin.x - d) && fits_i64(r.origin.y - d)
        && fits_i64(r.size.width + 2 * d) && fits_i64(r.size.height + 2 * d)
}

/// `r` grown by `d` on every side: the origin moves up and left by `d`, and
/// each dimension grows by `2 * d`.
pub open spec fn inflated(r: Rect, d: int) -> Rect {
    rect_of(r.origin.x - d, r.origin.y - d, r.size.width + 2 * d, r.size.height + 2 * d)
}

impl Point {
    pub fn new(x: i64, y: i64) -> (p: Point)
        ensures
            p.x == x,
            p.y == y,
    {
        Point { x, y }
    }

    pub fn zero() -> (p: Point)
        ensures
            p.x == 0,
            p.y == 0,
    {
        Point { x: 0, y: 0 }
    }
}

impl Size {
    pub fn new(width: i64, height: i64) -> (s: Size)
        ensures
            s.width == width,
            s.height == height,
    {
        Size { width, height }
    }
}

impl Rect {
    pub fn new(origin: Point, size: Size) -> (r: Rect)
        ensures
            r.origin == origin,
            r.size == size,
    {
        Rect { origin, size }
    }

    /// Whether `p` lies inside this rectangle.
    pub fn contains(&self, p: &Point) -> (r: bool)
        ensures
            r == rect_contains(*self, *p),
    {
        let x = self.origin.x as i128;
        let y = self.origin.y as i128;
        x <= p.x as i128 && (p.x as i128) < x + self.size.width as i128
            && y <= p.y as i128 && (p.y as i128) < y + self.size.height as i128
    }

    /// This rectangle moved by `offset`.
    pub fn translate(&self, offset: &Point) -> (r: Rect)
        requires
            can_translate(*self, *offset),
        ensures
            r == translated(*self, *offset),
    {
        Rect {
            origin: Point { x: self.origin.x + offset.x, y: self.origin.y + offset.y },
            size: self.size,
        }
    }

    /// This rectangle grown by `d` on every side.
    pub fn inflate(&self, d: i64) -> (r: Rect)
        requires
            can_inflate(*self, d as int),
        ensures
            r == inflated(*self, d as int),
    {
        Rect {
            origin: Point { x: self.origin.x - d, y: self.origin.y - d },
            size: Size {
                width: (self.size.width as i128 + 2 * d as i128) as i64,
                height: (self.size.height as i128 + 2 * d as i128) as i64,
            },
        }
    }
}

} // verus!
