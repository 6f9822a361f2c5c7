//! Points, extents and axis-aligned rectangles on an integer grid.

use vstd::prelude::*;

verus! {

/// A point or an extent of the plane, over the mathematical integers.
pub struct Vector {
    pub x: int,
    pub y: int,
}

impl Vector {
    /// The origin.
    pub open spec fn zero() -> Vector {
        Vector { x: 0, y: 0 }
    }

    /// The componentwise sum.
    pub open spec fn plus(self, other: Vector) -> Vector {
        Vector { x: self.x + other.x, y: self.y + other.y }
    }

    /// The componentwise difference.
    pub open spec fn minus(self, other: Vector) -> Vector {
        Vector { x: self.x - other.x, y: self.y - other.y }
    }

    /// Both components can be held in an `i64`.
    pub open spec fn fits(self) -> bool {
        &&& i64::MIN <= self.x <= i64::MAX
        &&& i64::MIN <= self.y <= i64::MAX
    }

    /// Neither component is negative: the vector can serve as a size.
    pub open spec fn is_extent(self) -> bool {
        self.x >= 0 && self.y >= 0
    }
}

/// A point or an extent on the host's grid.
#[derive(Clone, Copy, Debug, PartialEq, Eq, Structural)]
pub struct Vec2 {
    pub x: i64,
    pub y: i64,
}

impl View for Vec2 {
    type V = Vector;

    open spec fn view(&self) -> Vector {
        Vector { x: self.x as int, y: self.y as int }
    }
}

impl Vec2 {
    /// The vector with the given components.
    pub fn new(x: i64, y: i64) -> (r: Vec2)
        ensures
            r.x == x,
            r.y == y,
    {
        Vec2 { x, y }
    }

    /// The origin.
    pub fn zero() -> (r: Vec2)
        ensures
            r@ == Vector::zero(),
    {
        Vec2 { x: 0, y: 0 }
    }
}

/// An axis-aligned rectangle of the plane, over the mathematical integers:
/// the corner with the smallest coordinates, and the extent from there.
pub struct Rectangle {
    pub position: Vector,
    pub size: Vector,
}

impl Rectangle {
    /// The empty rectangle at the origin.
    pub open spec fn zero() -> Rectangle {
        Rectangle { position: Vector::zero(), size: Vector::zero() }
    }

    /// The size is not negative in either axis.
    pub open spec fn valid(self) -> bool {
        self.size.is_extent()
    }

    /// Position and size can each be held in a [`Vec2`].
    pub open spec fn fits(self) -> bool {
        self.position.fits() && self.size.fits()
    }

    /// The corner opposite to `position`.
    pub open spec fn end(self) -> Vector {
        Vector { x: self.position.x + self.size.x, y: self.position.y + self.size.y }
    }

    /// The middle of the rectangle; an odd extent is halved downwards.
    pub open spec fn center(self) -> Vector {
        Vector { x: self.position.x + self.size.x / 2, y: self.position.y + self.size.y / 2 }
    }

    /// The four corners, clockwise on a screen whose y axis points down,
    /// starting at `position`.
    pub open spec fn corners(self) -> Seq<Vector> {
        seq![
            self.position,
            Vector { x: self.end().x, y: self.position.y },
            self.end(),
            Vector { x: self.position.x, y: self.end().y },
        ]
    }

    /// Width times height.
    pub open spec fn area(self) -> int {
        self.size.x * self.size.y
    }

    /// The rectangle with each side moved outwards by its own amount.
    pub open spec fn grow_individual(self, left: int, top: int, right: int, bottom: int) -> Rectangle {
        Rectangle {
            position: Vector { x: self.position.x - left, y: self.position.y - top },
            size: Vector { x: self.size.x + left + right, y: self.size.y + top + bottom },
        }
    }

    /// The rectangle with every side moved outwards by `amount`.
    pub open spec fn grow(self, amount: int) -> Rectangle {
        self.grow_individual(amount, amount, amount, amount)
    }

    /// `p` lies in the rectangle. The edges through `position` belong to it,
    /// the edges through `end()` do not.
    pub open spec fn has_point(self, p: Vector) -> bool {
        &&& self.position.x <= p.x < self.position.x + self.size.x
        &&& self.position.y <= p.y < self.position.y + self.size.y
    }

    /// `p` lies in the rectangle or on any of its edges.
    pub open spec fn touches_point(self, p: Vector) -> bool {
        &&& self.position.x <= p.x <= self.position.x + self.size.x
        &&& self.position.y <= p.y <= self.position.y + self.size.y
    }

    /// `other` covers no point outside `self`.
    pub open spec fn encloses(self, other: Rectangle) -> bool {
        &&& other.position.x >= self.position.x
        &&& other.position.y >= self.position.y
        &&& other.end().x <= self.end().x
        &&& other.end().y <= self.end().y
    }

    /// The two rectangles have a point in common, edges included.
    pub open spec fn meets(self, other: Rectangle) -> bool {
        &&& self.position.x <= other.end().x
        &&& self.end().x >= other.position.x
        &&& self.position.y <= other.end().y
        &&& self.end().y >= other.position.y
    }

    /// What the two rectangles have in common: `None` when they are disjoint,
    /// a rectangle without area when they share only an edge or a corner.
    pub open spec fn intersection(self, other: Rectangle) -> Option<Rectangle> {
        if self.meets(other) {
            let left = vstd::math::max(self.position.x, other.position.x);
            let top = vstd::math::max(self.position.y, other.position.y);
            let right = vstd::math::min(self.end().x, other.end().x);
            let bottom = vstd::math::min(self.end().y, other.end().y);
            Some(
                Rectangle {
                    position: Vector { x: left, y: top },
                    size: Vector { x: right - left, y: bottom - top },
                },
            )
        } else {
            None
        }
    }
}

/// The center is the midpoint between `position` and `end()`, rounded down
/// to the grid in each axis.
pub proof fn lemma_center_is_midpoint(r: Rectangle)
    ensures
        2 * r.center().x <= r.position.x + r.end().x <= 2 * r.center().x + 1,
        2 * r.center().y <= r.position.y + r.end().y <= 2 * r.center().y + 1,
{
}

/// Growing by amounts that are not negative yields a rectangle around the
/// old one, and growing by the same amount on every side keeps the midpoint.
pub proof fn lemma_grown_encloses(r: Rectangle, left: int, top: int, right: int, bottom: int)
    requires
        left >= 0,
        top >= 0,
        right >= 0,
        bottom >= 0,
    ensures
        r.grow_individual(left, top, right, bottom).encloses(r),
        r.valid() ==> r.grow_individual(left, top, right, bottom).valid(),
        r.grow_individual(left, top, right, bottom).position.plus(
            r.grow_individual(left, top, right, bottom).end(),
        ) == r.position.plus(r.end()).plus(Vector { x: right - left, y: bottom - top }),
{
}

/// A point lies in the intersection of two rectangles exactly when it lies in
/// both, whether the far edges are counted in or not.
pub proof fn lemma_intersection_points(a: Rectangle, b: Rectangle, p: Vector)
    requires
        a.valid(),
        b.valid(),
    ensures
        (a.has_point(p) && b.has_point(p)) <==> (a.intersection(b) matches Some(common)
            && common.has_point(p)),
        (a.touches_point(p) && b.touches_point(p)) <==> (a.intersection(b) matches Some(common)
            && common.touches_point(p)),
{
}

/// Two rectangles that meet have a common point, and two that have a common
/// point meet.
pub proof fn lemma_meets_iff_common_point(a: Rectangle, b: Rectangle)
    requires
        a.valid(),
        b.valid(),
    ensures
        a.meets(b) <==> exists|p: Vector| #[trigger] a.touches_point(p) && b.touches_point(p),
{
    if a.meets(b) {
        let p = Vector {
            x: vstd::math::max(a.position.x, b.position.x),
            y: vstd::math::max(a.position.y, b.position.y),
        };
        assert(a.touches_point(p) && b.touches_point(p));
    }
}

/// The intersection of two rectangles lies inside both, and is no larger
/// than either.
pub proof fn lemma_intersection_within(a: Rectangle, b: Rectangle)
    requires
        a.valid(),
        b.valid(),
    ensures
        a.intersection(b) == b.intersection(a),
        a.intersection(b) matches Some(common) ==> {
            &&& common.valid()
            &&& a.encloses(common)
            &&& b.encloses(common)
            &&& common.size.x <= a.size.x
            &&& common.size.y <= a.size.y
            &&& 0 <= common.area() <= a.area()
        },
{
    if let Some(common) = a.intersection(b) {
        assert(0 <= common.size.x * common.size.y <= a.size.x * a.size.y) by (nonlinear_arith)
            requires
                0 <= common.size.x <= a.size.x,
                0 <= common.size.y <= a.size.y,
        ;
    }
}

/// A rectangle that lies inside another is its own intersection with it.
pub proof fn lemma_intersection_of_enclosed(a: Rectangle, b: Rectangle)
    requires
        a.valid(),
        b.encloses(a),
    ensures
        a.intersection(b) == Some(a),
{
}

/// A rectangle with area whose intersection with another has the same area
/// lies inside the other.
pub proof fn lemma_full_area_is_enclosed(a: Rectangle, b: Rectangle)
    requires
        a.valid(),
        b.valid(),
        a.area() > 0,
        a.intersection(b) matches Some(common) && common.area() == a.area(),
    ensures
        b.encloses(a),
{
    let common = a.intersection(b)->Some_0;
    assert(common.size.x == a.size.x && common.size.y == a.size.y) by (nonlinear_arith)
        requires
            0 <= common.size.x <= a.size.x,
            0 <= common.size.y <= a.size.y,
            common.size.x * common.size.y == a.size.x * a.size.y,
            a.size.x * a.size.y > 0,
    ;
}

/// An axis-aligned rectangle on the host's grid.
#[derive(Clone, Copy, Debug, PartialEq, Eq, Structural)]
pub struct Rect {
    pub position: Vec2,
    pub size: Vec2,
}

impl View for Rect {
    type V = Rectangle;

    open spec fn view(&self) -> Rectangle {
        Rectangle { position: self.position@, size: self.size@ }
    }
}

/// Whether `value` can be held in an `i64`, and so be a coordinate.
pub(crate) fn in_range(value: i128) -> (r: bool)
    ensures
        r == (i64::MIN <= value <= i64::MAX),
{
    -0x8000_0000_0000_0000 <= value && value <= 0x7fff_ffff_ffff_ffff
}

/// The model of a rectangle that may be missing.
pub open spec fn model_of(rect: Option<Rect>) -> Option<Rectangle> {
    match rect {
        Some(r) => Some(r@),
        None => None,
    }
}

impl Rect {
    /// The rectangle at `position` with the given `size`.
    pub fn new(position: Vec2, size: Vec2) -> (r: Rect)
        ensures
            r.position == position,
            r.size == size,
    {
        Rect { position, size }
    }

    /// The rectangle at `(x, y)` that is `width` wide and `height` high.
    pub fn from_components(x: i64, y: i64, width: i64, height: i64) -> (r: Rect)
        ensures
            r.position == (Vec2 { x, y }),
            r.size == (Vec2 { x: width, y: height }),
    {
        Rect { position: Vec2 { x, y }, size: Vec2 { x: width, y: height } }
    }

    /// The empty rectangle at the origin.
    pub fn zero() -> (r: Rect)
        ensures
            r@ == Rectangle::zero(),
    {
        Rect { position: Vec2 { x: 0, y: 0 }, size: Vec2 { x: 0, y: 0 } }
    }

    /// Whether the size is non-negative in both axes.
    pub fn is_valid(&self) -> (r: bool)
        ensures
            r == self@.valid(),
    {
        self.size.x >= 0 && self.size.y >= 0
    }

    /// The corner opposite to `position`.
    pub fn end(&self) -> (r: Vec2)
        requires
            self@.end().fits(),
        ensures
            r@ == self@.end(),
    {
        Vec2 { x: self.position.x + self.size.x, y: self.position.y + self.size.y }
    }

    /// The middle of the rectangle.
    pub fn center(&self) -> (r: Vec2)
        requires
            self@.valid(),
            self@.center().fits(),
        ensures
            r@ == self@.center(),
    {
        Vec2 { x: self.position.x + self.size.x / 2, y: self.position.y + self.size.y / 2 }
    }

    /// The four corners, clockwise from `position`.
    pub fn corners(&self) -> (r: [Vec2; 4])
        requires
            self@.end().fits(),
        ensures
            r@.len() == 4,
            forall|i: int| 0 <= i < 4 ==> (#[trigger] r@[i])@ == self@.corners()[i],
    {
        let end = self.end();
        [
            self.position,
            Vec2 { x: end.x, y: self.position.y },
            end,
            Vec2 { x: self.position.x, y: end.y },
        ]
    }

    /// Width times height.
    pub fn area(&self) -> (r: i128)
        ensures
            r == self@.area(),
    {
        let w: i128 = self.size.x as i128;
        let h: i128 = self.size.y as i128;
        assert(-0x8000_0000_0000_0000 * 0x8000_0000_0000_0000 <= w * h <= 0x8000_0000_0000_0000
            * 0x8000_0000_0000_0000) by (nonlinear_arith)
            requires
                -0x8000_0000_0000_0000 <= w < 0x8000_0000_0000_0000,
                -0x8000_0000_0000_0000 <= h < 0x8000_0000_0000_0000,
        ;
        w * h
    }

    /// The rectangle with each side moved outwards by its own amount; a
    /// negative amount moves the side inwards.
    pub fn grow_individual(&self, left: i64, top: i64, right: i64, bottom: i64) -> (r: Rect)
        requires
            self@.grow_individual(left as int, top as int, right as int, bottom as int).fits(),
        ensures
            r@ == self@.grow_individual(left as int, top as int, right as int, bottom as int),
    {
        let x: i128 = self.position.x as i128 - left as i128;
        let y: i128 = self.position.y as i128 - top as i128;
        let w: i128 = self.size.x as i128 + left as i128 + right as i128;
        let h: i128 = self.size.y as i128 + top as i128 + bottom as i128;
        Rect { position: Vec2 { x: x as i64, y: y as i64 }, size: Vec2 { x: w as i64, y: h as i64 } }
    }

    /// The rectangle with every side moved outwards by `amount`.
    pub fn grow(&self, amount: i64) -> (r: Rect)
        requires
            self@.grow(amount as int).fits(),
        ensures
            r@ == self@.grow(amount as int),
    {
        self.grow_individual(amount, amount, amount, amount)
    }

    /// Whether `p` lies in the rectangle, the far edges excluded.
    pub fn has_point(&self, p: Vec2) -> (r: bool)
        ensures
            r == self@.has_point(p@),
    {
        let dx: i128 = p.x as i128 - self.position.x as i128;
        let dy: i128 = p.y as i128 - self.position.y as i128;
        0 <= dx && dx < self.size.x as i128 && 0 <= dy && dy < self.size.y as i128
    }

    /// Whether `self` covers all of `other`.
    pub fn encloses(&self, other: &Rect) -> (r: bool)
        ensures
            r == self@.encloses(other@),
    {
        let end_x: i128 = self.position.x as i128 + self.size.x as i128;
        let end_y: i128 = self.position.y as i128 + self.size.y as i128;
        let other_end_x: i128 = other.position.x as i128 + other.size.x as i128;
        let other_end_y: i128 = other.position.y as i128 + other.size.y as i128;
        other.position.x >= self.position.x && other.position.y >= self.position.y && other_end_x
            <= end_x && other_end_y <= end_y
    }

    /// Whether the two rectangles have a point in common, edges included.
    pub fn meets(&self, other: &Rect) -> (r: bool)
        ensures
            r == self@.meets(other@),
    {
        let end_x: i128 = self.position.x as i128 + self.size.x as i128;
        let end_y: i128 = self.position.y as i128 + self.size.y as i128;
        let other_end_x: i128 = other.position.x as i128 + other.size.x as i128;
        let other_end_y: i128 = other.position.y as i128 + other.size.y as i128;
        self.position.x as i128 <= other_end_x && end_x >= other.position.x as i128
            && self.position.y as i128 <= other_end_y && end_y >= other.position.y as i128
    }

    /// What the two rectangles have in common, if anything.
    pub fn intersection(&self, other: &Rect) -> (r: Option<Rect>)
        ensures
            match r {
                Some(common) => self@.intersection(other@) == Some(common@),
                None => self@.intersection(other@) is None,
            },
    {
        if !self.meets(other) {
            return None;
        }
        let left: i64 = if self.position.x >= other.position.x {
            self.position.x
        } else {
            other.position.x
        };
        let top: i64 = if self.position.y >= other.position.y {
            self.position.y
        } else {
            other.position.y
        };
        let end_x: i128 = self.position.x as i128 + self.size.x as i128;
        let end_y: i128 = self.position.y as i128 + self.size.y as i128;
        let other_end_x: i128 = other.position.x as i128 + other.size.x as i128;
        let other_end_y: i128 = other.position.y as i128 + other.size.y as i128;
        let right: i128 = if end_x <= other_end_x {
            end_x
        } else {
            other_end_x
        };
        let bottom: i128 = if end_y <= other_end_y {
            end_y
        } else {
            other_end_y
        };
        let width: i128 = right - left as i128;
        let height: i128 = bottom - top as i128;
        Some(Rect { position: Vec2 { x: left, y: top }, size: Vec2 { x: width as i64, y: height as i64 } })
    }
}

} // verus!
