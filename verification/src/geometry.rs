//! Axis-aligned rectangles, circles and the tagged `Bounds` union, together
//! with the overlap, union and containment tests the simulation relies on.
//!
//! Coordinates are kept in sub-pixel units: one pixel is `SUBPIXELS_PER_PIXEL`
//! sub-pixels. A velocity expressed in pixels per second is then exactly a
//! velocity in sub-pixels per millisecond, so motion integration over a
//! millisecond clock is exact integer arithmetic.
use vstd::prelude::*;

verus! {

/// Number of sub-pixel units in one pixel.
pub const SUBPIXELS_PER_PIXEL: i64 = 1000;

/// All shape fields are kept within this magnitude so that sums and squared
/// distances fit comfortably in `i64` / `i128`.
pub const COORD_LIMIT: i64 = 1_000_000_000_000_000;

/// A coordinate small enough for the geometric computations below.
pub open spec fn in_range(v: int) -> bool {
    -(COORD_LIMIT as int) <= v <= COORD_LIMIT as int
}

pub open spec fn max_int(a: int, b: int) -> int {
    if a > b {
        a
    } else {
        b
    }
}

pub open spec fn min_int(a: int, b: int) -> int {
    if a < b {
        a
    } else {
        b
    }
}

/// An axis-aligned rectangle in sub-pixel units.
#[derive(Clone, Copy, Debug, PartialEq, Eq, Structural)]
pub struct Rectangle {
    pub x: i64,
    pub y: i64,
    pub width: i64,
    pub height: i64,
}

/// A circle in sub-pixel units.
#[derive(Clone, Copy, Debug, PartialEq, Eq, Structural)]
pub struct Circle {
    pub x: i64,
    pub y: i64,
    pub radius: i64,
}

/// The collidable shape of an entity: either a rectangle or a circle.
#[derive(Clone, Copy, Debug, PartialEq, Eq, Structural)]
pub enum Bounds {
    Rectangle(Rectangle),
    Circle(Circle),
}

/// A destination rectangle in whole pixels, as handed to the renderer.
#[derive(Clone, Copy, Debug, PartialEq, Eq, Structural)]
pub struct Dest {
    pub x: i32,
    pub y: i32,
    pub width: u32,
    pub height: u32,
}

/// A source region of a texture, in whole pixels.
#[derive(Clone, Copy, Debug, PartialEq, Eq, Structural)]
pub struct Clip {
    pub x: u32,
    pub y: u32,
    pub width: u32,
    pub height: u32,
}

impl Rectangle {
    /// Fields are in range and the extents are non-negative.
    pub open spec fn wf(self) -> bool {
        &&& in_range(self.x as int)
        &&& in_range(self.y as int)
        &&& 0 <= self.width <= COORD_LIMIT
        &&& 0 <= self.height <= COORD_LIMIT
    }

    pub fn left(&self) -> (r: i64)
        ensures
            r == self.x,
    {
        self.x
    }

    pub fn right(&self) -> (r: i64)
        requires
            self.wf(),
        ensures
            r == self.x + self.width,
    {
        self.x + self.width
    }

    pub fn top(&self) -> (r: i64)
        ensures
            r == self.y,
    {
        self.y
    }

    pub fn bottom(&self) -> (r: i64)
        requires
            self.wf(),
        ensures
            r == self.y + self.height,
    {
        self.y + self.height
    }

    pub fn with_position(&self, x: i64, y: i64) -> (r: Rectangle)
        ensures
            r == (Rectangle { x, y, ..*self }),
    {
        Rectangle { x, y, ..*self }
    }

    pub fn with_size(&self, w: i64, h: i64) -> (r: Rectangle)
        ensures
            r == (Rectangle { width: w, height: h, ..*self }),
    {
        Rectangle { width: w, height: h, ..*self }
    }

    pub fn with_offset(&self, dx: i64, dy: i64) -> (r: Rectangle)
        requires
            self.wf(),
            in_range(dx as int),
            in_range(dy as int),
        ensures
            r == (Rectangle { x: (self.x + dx) as i64, y: (self.y + dy) as i64, ..*self }),
    {
        Rectangle { x: self.x + dx, y: self.y + dy, ..*self }
    }

    /// Where the clamped copy of `self` sits inside `boundary`, if it fits.
    pub open spec fn move_inside_spec(self, boundary: Rectangle) -> Option<Rectangle> {
        if self.width > boundary.width || self.height > boundary.height {
            None
        } else {
            Some(
                Rectangle {
                    x: min_int(
                        max_int(self.x as int, boundary.x as int),
                        boundary.x + boundary.width - self.width,
                    ) as i64,
                    y: min_int(
                        max_int(self.y as int, boundary.y as int),
                        boundary.y + boundary.height - self.height,
                    ) as i64,
                    width: self.width,
                    height: self.height,
                },
            )
        }
    }

    /// Clamp this rectangle so that it lies inside `boundary`; `None` when it
    /// is too large to fit.
    pub fn move_inside(&self, boundary: &Rectangle) -> (r: Option<Rectangle>)
        requires
            self.wf(),
            boundary.wf(),
        ensures
            r == self.move_inside_spec(*boundary),
    {
        if self.width > boundary.width || self.height > boundary.height {
            None
        } else {
            Some(
                Rectangle {
                    x: self.x.max(boundary.x).min(boundary.right() - self.width),
                    y: self.y.max(boundary.y).min(boundary.bottom() - self.height),
                    width: self.width,
                    height: self.height,
                },
            )
        }
    }

    /// The smallest rectangle that covers both arguments.
    pub open spec fn union_spec(self, other: Rectangle) -> Rectangle {
        let x = min_int(self.x as int, other.x as int);
        let y = min_int(self.y as int, other.y as int);
        Rectangle {
            x: x as i64,
            y: y as i64,
            width: (max_int(self.x + self.width, other.x + other.width) - x) as i64,
            height: (max_int(self.y + self.height, other.y + other.height) - y) as i64,
        }
    }

    pub fn union(&self, other: &Rectangle) -> (r: Rectangle)
        requires
            self.wf(),
            other.wf(),
        ensures
            r == self.union_spec(*other),
    {
        let x = self.x.min(other.x);
        let y = self.y.min(other.y);
        Rectangle {
            x,
            y,
            width: self.right().max(other.right()) - x,
            height: self.bottom().max(other.bottom()) - y,
        }
    }

    /// The overlap of the two rectangles, when it has positive extent.
    pub open spec fn intersection_spec(self, other: Rectangle) -> Option<Rectangle> {
        let x = max_int(self.x as int, other.x as int);
        let y = max_int(self.y as int, other.y as int);
        let w = min_int(self.x + self.width, other.x + other.width) - x;
        let h = min_int(self.y + self.height, other.y + other.height) - y;
        if w > 0 && h > 0 {
            Some(Rectangle { x: x as i64, y: y as i64, width: w as i64, height: h as i64 })
        } else {
            None
        }
    }

    pub fn intersection(&self, other: &Rectangle) -> (r: Option<Rectangle>)
        requires
            self.wf(),
            other.wf(),
        ensures
            r == self.intersection_spec(*other),
    {
        let x = self.x.max(other.x);
        let y = self.y.max(other.y);
        let w = self.right().min(other.right()) - x;
        let h = self.bottom().min(other.bottom()) - y;
        if w > 0 && h > 0 {
            Some(Rectangle { x, y, width: w, height: h })
        } else {
            None
        }
    }

    /// Whether the two rectangles overlap with positive area.
    pub open spec fn overlaps(self, other: Rectangle) -> bool {
        self.intersection_spec(other) is Some
    }

    pub fn intersects(&self, other: &Rectangle) -> (r: bool)
        requires
            self.wf(),
            other.wf(),
        ensures
            r == self.overlaps(*other),
    {
        self.intersection(other).is_some()
    }

    pub open spec fn contains_spec(self, subset: Rectangle) -> bool {
        &&& subset.x >= self.x
        &&& subset.x + subset.width <= self.x + self.width
        &&& subset.y >= self.y
        &&& subset.y + subset.height <= self.y + self.height
    }

    pub fn contains(&self, subset: &Rectangle) -> (r: bool)
        requires
            self.wf(),
            subset.wf(),
        ensures
            r == self.contains_spec(*subset),
    {
        subset.left() >= self.left() && subset.right() <= self.right() && subset.top()
            >= self.top() && subset.bottom() <= self.bottom()
    }

    pub fn contained_by(&self, superset: &Rectangle) -> (r: bool)
        requires
            self.wf(),
            superset.wf(),
        ensures
            r == superset.contains_spec(*self),
    {
        superset.contains(self)
    }
}

/// The square of a value bounded by `b` is bounded by `b * b`.
proof fn lemma_square_bound(v: int, b: int)
    requires
        -b <= v <= b,
    ensures
        0 <= v * v <= b * b,
{
    assert(0 <= v * v && v * v <= b * b) by (nonlinear_arith)
        requires
            -b <= v <= b,
    ;
}

impl Default for Rectangle {
    /// The empty rectangle at the origin.
    fn default() -> (r: Rectangle)
        ensures
            r == (Rectangle { x: 0, y: 0, width: 0, height: 0 }),
    {
        Rectangle { x: 0, y: 0, width: 0, height: 0 }
    }
}

impl Circle {
    pub open spec fn wf(self) -> bool {
        &&& in_range(self.x as int)
        &&& in_range(self.y as int)
        &&& 0 <= self.radius <= COORD_LIMIT
    }

    pub fn left(&self) -> (r: i64)
        requires
            self.wf(),
        ensures
            r == self.x - self.radius,
    {
        self.x - self.radius
    }

    pub fn right(&self) -> (r: i64)
        requires
            self.wf(),
        ensures
            r == self.x + self.radius,
    {
        self.x + self.radius
    }

    pub fn top(&self) -> (r: i64)
        requires
            self.wf(),
        ensures
            r == self.y - self.radius,
    {
        self.y - self.radius
    }

    pub fn bottom(&self) -> (r: i64)
        requires
            self.wf(),
        ensures
            r == self.y + self.radius,
    {
        self.y + self.radius
    }

    /// Strict overlap: the squared centre distance is below the squared sum
    /// of the radii.
    pub open spec fn overlaps(self, other: Circle) -> bool {
        let dx = self.x - other.x;
        let dy = self.y - other.y;
        let total = self.radius + other.radius;
        dx * dx + dy * dy < total * total
    }

    pub fn intersects(&self, other: &Circle) -> (r: bool)
        requires
            self.wf(),
            other.wf(),
        ensures
            r == self.overlaps(*other),
    {
        let dx: i128 = self.x as i128 - other.x as i128;
        let dy: i128 = self.y as i128 - other.y as i128;
        let total: i128 = self.radius as i128 + other.radius as i128;
        proof {
            lemma_square_bound(dx as int, 2 * COORD_LIMIT as int);
            lemma_square_bound(dy as int, 2 * COORD_LIMIT as int);
            lemma_square_bound(total as int, 2 * COORD_LIMIT as int);
        }
        dx * dx + dy * dy < total * total
    }
}

/// Strict overlap between a circle and a rectangle: the circle's centre is
/// clamped into the rectangle and the squared distance to the clamped point
/// is compared against the squared radius.
pub open spec fn circle_rect_overlap(c: Circle, r: Rectangle) -> bool {
    let tx = min_int(max_int(c.x as int, r.x as int), r.x + r.width);
    let ty = min_int(max_int(c.y as int, r.y as int), r.y + r.height);
    let dx = c.x - tx;
    let dy = c.y - ty;
    dx * dx + dy * dy < c.radius * c.radius
}

pub fn rectangle_intersects_circle(c: &Circle, r: &Rectangle) -> (res: bool)
    requires
        c.wf(),
        r.wf(),
    ensures
        res == circle_rect_overlap(*c, *r),
{
    let tx = c.x.max(r.left()).min(r.right());
    let ty = c.y.max(r.top()).min(r.bottom());
    let dx: i128 = c.x as i128 - tx as i128;
    let dy: i128 = c.y as i128 - ty as i128;
    proof {
        lemma_square_bound(dx as int, 4 * COORD_LIMIT as int);
        lemma_square_bound(dy as int, 4 * COORD_LIMIT as int);
        lemma_square_bound(c.radius as int, COORD_LIMIT as int);
    }
    dx * dx + dy * dy < c.radius as i128 * c.radius as i128
}

impl Bounds {
    pub open spec fn wf(self) -> bool {
        match self {
            Bounds::Rectangle(r) => r.wf(),
            Bounds::Circle(c) => c.wf(),
        }
    }

    pub open spec fn left_spec(self) -> int {
        match self {
            Bounds::Rectangle(b) => b.x as int,
            Bounds::Circle(c) => c.x - c.radius,
        }
    }

    pub open spec fn right_spec(self) -> int {
        match self {
            Bounds::Rectangle(b) => b.x + b.width,
            Bounds::Circle(c) => c.x + c.radius,
        }
    }

    pub open spec fn top_spec(self) -> int {
        match self {
            Bounds::Rectangle(b) => b.y as int,
            Bounds::Circle(c) => c.y - c.radius,
        }
    }

    pub open spec fn bottom_spec(self) -> int {
        match self {
            Bounds::Rectangle(b) => b.y + b.height,
            Bounds::Circle(c) => c.y + c.radius,
        }
    }

    pub fn left(&self) -> (r: i64)
        requires
            self.wf(),
        ensures
            r == self.left_spec(),
    {
        match *self {
            Bounds::Rectangle(b) => b.left(),
            Bounds::Circle(c) => c.left(),
        }
    }

    pub fn right(&self) -> (r: i64)
        requires
            self.wf(),
        ensures
            r == self.right_spec(),
    {
        match *self {
            Bounds::Rectangle(b) => b.right(),
            Bounds::Circle(c) => c.right(),
        }
    }

    pub fn top(&self) -> (r: i64)
        requires
            self.wf(),
        ensures
            r == self.top_spec(),
    {
        match *self {
            Bounds::Rectangle(b) => b.top(),
            Bounds::Circle(c) => c.top(),
        }
    }

    pub fn bottom(&self) -> (r: i64)
        requires
            self.wf(),
        ensures
            r == self.bottom_spec(),
    {
        match *self {
            Bounds::Rectangle(b) => b.bottom(),
            Bounds::Circle(c) => c.bottom(),
        }
    }

    /// Overlap between two bounds, dispatching on the shape kinds.
    pub open spec fn overlaps(self, other: Bounds) -> bool {
        match (self, other) {
            (Bounds::Rectangle(a), Bounds::Rectangle(b)) => a.overlaps(b),
            (Bounds::Circle(a), Bounds::Circle(b)) => a.overlaps(b),
            (Bounds::Rectangle(a), Bounds::Circle(b)) => circle_rect_overlap(b, a),
            (Bounds::Circle(a), Bounds::Rectangle(b)) => circle_rect_overlap(a, b),
        }
    }

    pub fn intersects(&self, other: &Bounds) -> (r: bool)
        requires
            self.wf(),
            other.wf(),
        ensures
            r == self.overlaps(*other),
    {
        match (*self, *other) {
            (Bounds::Rectangle(a), Bounds::Rectangle(b)) => a.intersects(&b),
            (Bounds::Circle(a), Bounds::Circle(b)) => a.intersects(&b),
            (Bounds::Rectangle(a), Bounds::Circle(b)) => rectangle_intersects_circle(&b, &a),
            (Bounds::Circle(a), Bounds::Rectangle(b)) => rectangle_intersects_circle(&a, &b),
        }
    }
}

/// Overlap between bounds does not depend on the order of the two sides,
/// which is what lets a resolver visit each unordered pair only once.
pub proof fn lemma_overlaps_symmetric(a: Bounds, b: Bounds)
    ensures
        a.overlaps(b) == b.overlaps(a),
{
    match (a, b) {
        (Bounds::Circle(c1), Bounds::Circle(c2)) => {
            assert((c1.x - c2.x) * (c1.x - c2.x) == (c2.x - c1.x) * (c2.x - c1.x))
                by (nonlinear_arith);
            assert((c1.y - c2.y) * (c1.y - c2.y) == (c2.y - c1.y) * (c2.y - c1.y))
                by (nonlinear_arith);
        },
        _ => {},
    }
}

/// A sub-pixel coordinate truncated to whole pixels (rounding toward zero,
/// as the renderer's integer conversion does).
pub open spec fn to_px(v: int) -> int {
    if v >= 0 {
        v / (SUBPIXELS_PER_PIXEL as int)
    } else {
        -((-v) / (SUBPIXELS_PER_PIXEL as int))
    }
}

/// Truncate a sub-pixel coordinate to whole pixels.
pub fn subpixels_to_pixels(v: i64) -> (r: i64)
    requires
        in_range(v as int),
    ensures
        r == to_px(v as int),
{
    if v >= 0 {
        v / SUBPIXELS_PER_PIXEL
    } else {
        -((-v) / SUBPIXELS_PER_PIXEL)
    }
}

impl Rectangle {
    /// Whether this rectangle can be turned into a whole-pixel destination
    /// rectangle: positive extents, and pixel values that fit the
    /// destination's integer fields.
    pub open spec fn dest_convertible(self) -> bool {
        &&& -(i32::MAX as int) <= to_px(self.x as int) <= i32::MAX as int
        &&& -(i32::MAX as int) <= to_px(self.y as int) <= i32::MAX as int
        &&& self.width as int / (SUBPIXELS_PER_PIXEL as int) <= u32::MAX as int
        &&& self.height as int / (SUBPIXELS_PER_PIXEL as int) <= u32::MAX as int
        &&& self.width > 0
        &&& self.height > 0
    }

    pub open spec fn to_dest_spec(self) -> Result<Dest, ()> {
        if self.dest_convertible() {
            Ok(
                Dest {
                    x: to_px(self.x as int) as i32,
                    y: to_px(self.y as int) as i32,
                    width: (self.width as int / (SUBPIXELS_PER_PIXEL as int)) as u32,
                    height: (self.height as int / (SUBPIXELS_PER_PIXEL as int)) as u32,
                },
            )
        } else {
            Err(())
        }
    }

    /// Convert to a whole-pixel destination rectangle; fails when the
    /// extents are not positive or a field does not fit.
    pub fn to_dest(&self) -> (r: Result<Dest, ()>)
        requires
            self.wf(),
        ensures
            r == self.to_dest_spec(),
    {
        let px = subpixels_to_pixels(self.x);
        let py = subpixels_to_pixels(self.y);
        let pw = self.width / SUBPIXELS_PER_PIXEL;
        let ph = self.height / SUBPIXELS_PER_PIXEL;
        if -(i32::MAX as i64) <= px && px <= i32::MAX as i64 && -(i32::MAX as i64) <= py && py
            <= i32::MAX as i64 && pw <= u32::MAX as i64 && ph <= u32::MAX as i64 && self.width > 0
            && self.height > 0 {
            Ok(Dest { x: px as i32, y: py as i32, width: pw as u32, height: ph as u32 })
        } else {
            Err(())
        }
    }

    pub open spec fn from_dest_spec(d: Dest) -> Rectangle {
        Rectangle {
            x: (d.x * SUBPIXELS_PER_PIXEL) as i64,
            y: (d.y * SUBPIXELS_PER_PIXEL) as i64,
            width: (d.width * SUBPIXELS_PER_PIXEL) as i64,
            height: (d.height * SUBPIXELS_PER_PIXEL) as i64,
        }
    }

    /// Read a whole-pixel destination rectangle back into sub-pixel units.
    pub fn from_dest(d: Dest) -> (r: Rectangle)
        ensures
            r == Rectangle::from_dest_spec(d),
            r.wf(),
    {
        Rectangle {
            x: d.x as i64 * SUBPIXELS_PER_PIXEL,
            y: d.y as i64 * SUBPIXELS_PER_PIXEL,
            width: d.width as i64 * SUBPIXELS_PER_PIXEL,
            height: d.height as i64 * SUBPIXELS_PER_PIXEL,
        }
    }
}

impl Bounds {
    /// Only rectangle bounds convert to a destination rectangle.
    pub open spec fn to_dest_spec(self) -> Result<Dest, ()> {
        match self {
            Bounds::Rectangle(r) => r.to_dest_spec(),
            Bounds::Circle(_) => Err(()),
        }
    }

    pub fn to_dest(&self) -> (r: Result<Dest, ()>)
        requires
            self.wf(),
        ensures
            r == self.to_dest_spec(),
    {
        match *self {
            Bounds::Rectangle(rect) => rect.to_dest(),
            Bounds::Circle(_) => Err(()),
        }
    }
}

impl Dest {
    /// The rows and columns of this destination stay within `i32` when its
    /// size is added to its position.
    pub open spec fn wf(self) -> bool {
        &&& self.width <= i32::MAX as u32
        &&& self.height <= i32::MAX as u32
        &&& self.x + self.width <= i32::MAX as int
        &&& self.y + self.height <= i32::MAX as int
    }

    pub fn left(&self) -> (r: i32)
        ensures
            r == self.x,
    {
        self.x
    }

    pub fn right(&self) -> (r: i32)
        requires
            self.wf(),
        ensures
            r == self.x + self.width,
    {
        self.x + self.width as i32
    }

    pub fn top(&self) -> (r: i32)
        ensures
            r == self.y,
    {
        self.y
    }

    pub fn bottom(&self) -> (r: i32)
        requires
            self.wf(),
        ensures
            r == self.y + self.height,
    {
        self.y + self.height as i32
    }
}

/// A destination read back from whole pixels converts to the same
/// destination: serialising a rectangle-kind shape to a destination
/// rectangle and back is the identity on representable values.
pub proof fn lemma_dest_round_trip(d: Dest)
    requires
        d.width >= 1,
        d.height >= 1,
        d.x > i32::MIN,
        d.y > i32::MIN,
    ensures
        Rectangle::from_dest_spec(d).to_dest_spec() == Ok::<Dest, ()>(d),
{
    let r = Rectangle::from_dest_spec(d);
    lemma_exact_div(d.x as int);
    lemma_exact_div(d.y as int);
    lemma_exact_div(d.width as int);
    lemma_exact_div(d.height as int);
    assert(r.to_dest_spec() == Ok::<Dest, ()>(d));
}

/// A rectangle whose fields are whole pixels survives the round trip to a
/// destination rectangle and back unchanged.
pub proof fn lemma_rect_dest_round_trip(r: Rectangle)
    requires
        r.wf(),
        r.x as int % (SUBPIXELS_PER_PIXEL as int) == 0,
        r.y as int % (SUBPIXELS_PER_PIXEL as int) == 0,
        r.width as int % (SUBPIXELS_PER_PIXEL as int) == 0,
        r.height as int % (SUBPIXELS_PER_PIXEL as int) == 0,
        r.to_dest_spec() is Ok,
    ensures
        Rectangle::from_dest_spec(r.to_dest_spec()->Ok_0) == r,
{
    let s = SUBPIXELS_PER_PIXEL as int;
    lemma_div_of_multiple(r.x as int);
    lemma_div_of_multiple(r.y as int);
    lemma_div_of_multiple(r.width as int);
    lemma_div_of_multiple(r.height as int);
    assert(to_px(r.x as int) * s == r.x);
    assert(to_px(r.y as int) * s == r.y);
}

/// `(k * 1000) / 1000 == k`, stated for the sub-pixel scale.
proof fn lemma_exact_div(k: int)
    ensures
        to_px(k * (SUBPIXELS_PER_PIXEL as int)) == k,
{
    let s = SUBPIXELS_PER_PIXEL as int;
    vstd::arithmetic::div_mod::lemma_div_multiples_vanish(k, s);
    if k < 0 {
        vstd::arithmetic::div_mod::lemma_div_multiples_vanish(-k, s);
        assert(-(k * s) == s * (-k));
    }
}

/// A value divisible by the sub-pixel scale is recovered exactly from its
/// truncated quotient.
proof fn lemma_div_of_multiple(v: int)
    requires
        v % (SUBPIXELS_PER_PIXEL as int) == 0,
    ensures
        to_px(v) * (SUBPIXELS_PER_PIXEL as int) == v,
        v / (SUBPIXELS_PER_PIXEL as int) * (SUBPIXELS_PER_PIXEL as int) == v,
{
    let s = SUBPIXELS_PER_PIXEL as int;
    let k = v / s;
    vstd::arithmetic::div_mod::lemma_fundamental_div_mod(v, s);
    assert(v == s * k);
    if v < 0 {
        vstd::arithmetic::div_mod::lemma_div_multiples_vanish(-k, s);
        assert(-v == s * (-k));
    }
}

} // verus!
