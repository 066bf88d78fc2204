//! Integer points, sizes and rectangles in pixel coordinates.
//!
//! Coordinates are `i32`; the contracts speak of them as mathematical
//! integers, so a sum of two coordinates in a contract never wraps.

use vstd::prelude::*;

verus! {

/// A position in pixels.
#[derive(Debug, Copy, Clone, PartialEq, Eq, Structural)]
pub struct Point {
    pub x: i32,
    pub y: i32,
}

/// A width and a height in pixels.
#[derive(Debug, Copy, Clone, PartialEq, Eq, Structural)]
pub struct Size {
    pub width: i32,
    pub height: i32,
}

/// A rectangle given by its top-left corner and its size.
#[derive(Debug, Copy, Clone, PartialEq, Eq, Structural)]
pub struct Rect {
    pub pos: Point,
    pub size: Size,
}

/// A colour with 8 bits per channel.
#[derive(Debug, Copy, Clone, PartialEq, Eq, Structural)]
pub struct Color {
    pub red: u8,
    pub green: u8,
    pub blue: u8,
    pub alpha: u8,
}

/// Whether `v` can be stored in an `i32`.
pub open spec fn fits_i32(v: int) -> bool {
    i32::MIN <= v <= i32::MAX
}

/// Builds a point from its coordinates.
pub fn pos(x: i32, y: i32) -> (p: Point)
    ensures
        p == (Point { x, y }),
{
    Point { x, y }
}

/// Builds a size from a width and a height.
pub fn size(width: i32, height: i32) -> (s: Size)
    ensures
        s == (Size { width, height }),
{
    Size { width, height }
}

/// Builds a rectangle from its corner and its extent.
pub fn rect(x: i32, y: i32, width: i32, height: i32) -> (r: Rect)
    ensures
        r == (Rect { pos: Point { x, y }, size: Size { width, height } }),
{
    Rect { pos: Point { x, y }, size: Size { width, height } }
}

/// An opaque colour.
pub fn rgb(red: u8, green: u8, blue: u8) -> (c: Color)
    ensures
        c == (Color { red, green, blue, alpha: 255 }),
{
    Color { red, green, blue, alpha: 255 }
}

/// A colour with an explicit alpha channel.
pub fn rgba(red: u8, green: u8, blue: u8, alpha: u8) -> (c: Color)
    ensures
        c == (Color { red, green, blue, alpha }),
{
    Color { red, green, blue, alpha }
}

/// An opaque grey of the given brightness.
pub fn gray(level: u8) -> (c: Color)
    ensures
        c == (Color { red: level, green: level, blue: level, alpha: 255 }),
{
    Color { red: level, green: level, blue: level, alpha: 255 }
}

impl Color {
    pub fn black() -> (c: Color)
        ensures
            c == (Color { red: 0, green: 0, blue: 0, alpha: 255 }),
    {
        Color { red: 0, green: 0, blue: 0, alpha: 255 }
    }

    pub fn white() -> (c: Color)
        ensures
            c == (Color { red: 255, green: 255, blue: 255, alpha: 255 }),
    {
        Color { red: 255, green: 255, blue: 255, alpha: 255 }
    }

    pub fn red() -> (c: Color)
        ensures
            c == (Color { red: 255, green: 0, blue: 0, alpha: 255 }),
    {
        Color { red: 255, green: 0, blue: 0, alpha: 255 }
    }

    pub fn green() -> (c: Color)
        ensures
            c == (Color { red: 0, green: 255, blue: 0, alpha: 255 }),
    {
        Color { red: 0, green: 255, blue: 0, alpha: 255 }
    }

    pub fn blue() -> (c: Color)
        ensures
            c == (Color { red: 0, green: 0, blue: 255, alpha: 255 }),
    {
        Color { red: 0, green: 0, blue: 255, alpha: 255 }
    }

    pub fn yellow() -> (c: Color)
        ensures
            c == (Color { red: 255, green: 255, blue: 0, alpha: 255 }),
    {
        Color { red: 255, green: 255, blue: 0, alpha: 255 }
    }

    pub fn cyan() -> (c: Color)
        ensures
            c == (Color { red: 0, green: 255, blue: 255, alpha: 255 }),
    {
        Color { red: 0, green: 255, blue: 255, alpha: 255 }
    }

    pub fn magenta() -> (c: Color)
        ensures
            c == (Color { red: 255, green: 0, blue: 255, alpha: 255 }),
    {
        Color { red: 255, green: 0, blue: 255, alpha: 255 }
    }

    pub fn transparent() -> (c: Color)
        ensures
            c == (Color { red: 0, green: 0, blue: 0, alpha: 0 }),
    {
        Color { red: 0, green: 0, blue: 0, alpha: 0 }
    }

    pub fn gray() -> (c: Color)
        ensures
            c == (Color { red: 160, green: 160, blue: 160, alpha: 255 }),
    {
        Color { red: 160, green: 160, blue: 160, alpha: 255 }
    }

    pub fn light_gray() -> (c: Color)
        ensures
            c == (Color { red: 210, green: 210, blue: 210, alpha: 255 }),
    {
        Color { red: 210, green: 210, blue: 210, alpha: 255 }
    }

    pub fn dark_gray() -> (c: Color)
        ensures
            c == (Color { red: 85, green: 85, blue: 85, alpha: 255 }),
    {
        Color { red: 85, green: 85, blue: 85, alpha: 255 }
    }
}

impl Point {
    /// The point lies in `rect`: on or after its left and top edges, strictly
    /// before its right and bottom edges.
    pub open spec fn spec_within(self, rect: Rect) -> bool {
        &&& rect.pos.x <= self.x < rect.pos.x + rect.size.width
        &&& rect.pos.y <= self.y < rect.pos.y + rect.size.height
    }

    /// Componentwise sum.
    pub open spec fn plus(self, other: Point) -> Point {
        Point { x: (self.x + other.x) as i32, y: (self.y + other.y) as i32 }
    }

    /// Componentwise difference.
    pub open spec fn minus(self, other: Point) -> Point {
        Point { x: (self.x - other.x) as i32, y: (self.y - other.y) as i32 }
    }

    pub fn within(&self, rect: &Rect) -> (inside: bool)
        ensures
            inside == self.spec_within(*rect),
    {
        let x: i64 = self.x as i64;
        let y: i64 = self.y as i64;
        x >= rect.pos.x as i64 && x < rect.pos.x as i64 + rect.size.width as i64 && y
            >= rect.pos.y as i64 && y < rect.pos.y as i64 + rect.size.height as i64
    }
}

impl Size {
    /// The number of pixels covered, as a mathematical integer.
    pub open spec fn spec_area(self) -> int {
        self.width * self.height
    }

    /// Componentwise sum.
    pub open spec fn plus(self, other: Size) -> Size {
        Size {
            width: (self.width + other.width) as i32,
            height: (self.height + other.height) as i32,
        }
    }

    /// Componentwise difference.
    pub open spec fn minus(self, other: Size) -> Size {
        Size {
            width: (self.width - other.width) as i32,
            height: (self.height - other.height) as i32,
        }
    }

    pub fn area(self) -> (a: i32)
        requires
            fits_i32(self.spec_area()),
        ensures
            a == self.spec_area(),
    {
        self.width * self.height
    }
}

impl Rect {
    pub open spec fn spec_left(self) -> int {
        self.pos.x as int
    }

    pub open spec fn spec_top(self) -> int {
        self.pos.y as int
    }

    pub open spec fn spec_right(self) -> int {
        self.pos.x + self.size.width
    }

    pub open spec fn spec_bottom(self) -> int {
        self.pos.y + self.size.height
    }

    /// Both far edges are representable coordinates.
    pub open spec fn edges_fit(self) -> bool {
        fits_i32(self.spec_right()) && fits_i32(self.spec_bottom())
    }

    /// `other` is no larger than `self` in either dimension and lies inside
    /// its four edges.
    pub open spec fn spec_contains(self, other: Rect) -> bool {
        &&& self.size.width >= other.size.width
        &&& self.size.height >= other.size.height
        &&& self.spec_left() <= other.spec_left()
        &&& self.spec_right() >= other.spec_right()
        &&& self.spec_top() <= other.spec_top()
        &&& self.spec_bottom() >= other.spec_bottom()
    }

    /// The centre, with halves rounded toward zero.
    pub open spec fn spec_center_x(self) -> int {
        self.pos.x + half(self.size.width as int)
    }

    pub open spec fn spec_center_y(self) -> int {
        self.pos.y + half(self.size.height as int)
    }

    /// If another rectangle is completely contained by it, return true.
    pub fn contains(&self, other: &Rect) -> (inside: bool)
        ensures
            inside == self.spec_contains(*other),
    {
        if self.size.width < other.size.width || self.size.height < other.size.height {
            return false;
        }
        let this_left: i64 = self.pos.x as i64;
        let this_top: i64 = self.pos.y as i64;
        let this_right: i64 = this_left + self.size.width as i64;
        let this_bottom: i64 = this_top + self.size.height as i64;

        let other_left: i64 = other.pos.x as i64;
        let other_top: i64 = other.pos.y as i64;
        let other_right: i64 = other_left + other.size.width as i64;
        let other_bottom: i64 = other_top + other.size.height as i64;

        this_left <= other_left && this_right >= other_right && this_top <= other_top
            && this_bottom >= other_bottom
    }

    /// Return the center point of the rectangle.
    pub fn center(&self) -> (c: Point)
        requires
            fits_i32(self.spec_center_x()),
            fits_i32(self.spec_center_y()),
        ensures
            c.x == self.spec_center_x(),
            c.y == self.spec_center_y(),
    {
        Point { x: self.pos.x + self.size.width / 2, y: self.pos.y + self.size.height / 2 }
    }

    /// Return a new rectangle with the given size and centered around the
    /// center of this rectangle.
    pub fn center_rect(&self, size: Size) -> (r: Rect)
        requires
            fits_i32(self.spec_center_x()),
            fits_i32(self.spec_center_y()),
            fits_i32(self.spec_center_x() - half(size.width as int)),
            fits_i32(self.spec_center_y() - half(size.height as int)),
        ensures
            r.size == size,
            r.pos.x == self.spec_center_x() - half(size.width as int),
            r.pos.y == self.spec_center_y() - half(size.height as int),
    {
        let center = self.center();
        Rect {
            pos: Point { x: center.x - size.width / 2, y: center.y - size.height / 2 },
            size,
        }
    }

    pub fn top(&self) -> (v: i32)
        ensures
            v == self.spec_top(),
    {
        self.pos.y
    }

    pub fn bottom(&self) -> (v: i32)
        requires
            fits_i32(self.spec_bottom()),
        ensures
            v == self.spec_bottom(),
    {
        self.pos.y + self.size.height
    }

    pub fn left(&self) -> (v: i32)
        ensures
            v == self.spec_left(),
    {
        self.pos.x
    }

    pub fn right(&self) -> (v: i32)
        requires
            fits_i32(self.spec_right()),
        ensures
            v == self.spec_right(),
    {
        self.pos.x + self.size.width
    }

    pub fn top_left(&self) -> (p: Point)
        ensures
            p == self.pos,
    {
        Point { x: self.pos.x, y: self.pos.y }
    }

    pub fn top_right(&self) -> (p: Point)
        requires
            fits_i32(self.spec_right()),
        ensures
            p.x == self.spec_right(),
            p.y == self.spec_top(),
    {
        Point { x: self.pos.x + self.size.width, y: self.pos.y }
    }

    pub fn bottom_left(&self) -> (p: Point)
        requires
            fits_i32(self.spec_bottom()),
        ensures
            p.x == self.spec_left(),
            p.y == self.spec_bottom(),
    {
        Point { x: self.pos.x, y: self.pos.y + self.size.height }
    }

    pub fn bottom_right(&self) -> (p: Point)
        requires
            self.edges_fit(),
        ensures
            p.x == self.spec_right(),
            p.y == self.spec_bottom(),
    {
        Point { x: self.pos.x + self.size.width, y: self.pos.y + self.size.height }
    }
}

/// Half of `v`, rounded toward zero.
pub open spec fn half(v: int) -> int {
    if v >= 0 {
        v / 2
    } else {
        -((-v) / 2)
    }
}

impl core::ops::Add for Point {
    type Output = Point;

    fn add(self, other: Point) -> (sum: Point) {
        Point { x: self.x + other.x, y: self.y + other.y }
    }
}

impl vstd::std_specs::ops::AddSpecImpl for Point {
    open spec fn obeys_add_spec() -> bool {
        true
    }

    open spec fn add_req(self, other: Point) -> bool {
        fits_i32(self.x + other.x) && fits_i32(self.y + other.y)
    }

    open spec fn add_spec(self, other: Point) -> Point {
        self.plus(other)
    }
}

impl core::ops::Sub for Point {
    type Output = Point;

    fn sub(self, other: Point) -> (difference: Point) {
        Point { x: self.x - other.x, y: self.y - other.y }
    }
}

impl vstd::std_specs::ops::SubSpecImpl for Point {
    open spec fn obeys_sub_spec() -> bool {
        true
    }

    open spec fn sub_req(self, other: Point) -> bool {
        fits_i32(self.x - other.x) && fits_i32(self.y - other.y)
    }

    open spec fn sub_spec(self, other: Point) -> Point {
        self.minus(other)
    }
}

impl core::ops::Add for Size {
    type Output = Size;

    fn add(self, other: Size) -> (sum: Size) {
        Size { width: self.width + other.width, height: self.height + other.height }
    }
}

impl vstd::std_specs::ops::AddSpecImpl for Size {
    open spec fn obeys_add_spec() -> bool {
        true
    }

    open spec fn add_req(self, other: Size) -> bool {
        fits_i32(self.width + other.width) && fits_i32(self.height + other.height)
    }

    open spec fn add_spec(self, other: Size) -> Size {
        self.plus(other)
    }
}

impl core::ops::Sub for Size {
    type Output = Size;

    fn sub(self, other: Size) -> (difference: Size) {
        Size { width: self.width - other.width, height: self.height - other.height }
    }
}

impl vstd::std_specs::ops::SubSpecImpl for Size {
    open spec fn obeys_sub_spec() -> bool {
        true
    }

    open spec fn sub_req(self, other: Size) -> bool {
        fits_i32(self.width - other.width) && fits_i32(self.height - other.height)
    }

    open spec fn sub_spec(self, other: Size) -> Size {
        self.minus(other)
    }
}

/// The greater of two integers.
pub open spec fn larger(a: int, b: int) -> int {
    if a >= b {
        a
    } else {
        b
    }
}

/// The lesser of two integers.
pub open spec fn smaller(a: int, b: int) -> int {
    if a <= b {
        a
    } else {
        b
    }
}

impl Rect {
    /// The part that two rectangles have in common, if it covers any
    /// pixel.
    pub open spec fn spec_intersection(self, other: Rect) -> Option<Rect> {
        let left = larger(self.spec_left(), other.spec_left());
        let top = larger(self.spec_top(), other.spec_top());
        let right = smaller(self.spec_right(), other.spec_right());
        let bottom = smaller(self.spec_bottom(), other.spec_bottom());
        if right - left > 0 && bottom - top > 0 {
            Some(
                Rect {
                    pos: Point { x: left as i32, y: top as i32 },
                    size: Size { width: (right - left) as i32, height: (bottom - top) as i32 },
                },
            )
        } else {
            None
        }
    }

    /// The extent of the smallest rectangle around two rectangles.
    pub open spec fn spec_hull_width(self, other: Rect) -> int {
        larger(self.spec_right(), other.spec_right()) - smaller(
            self.spec_left(),
            other.spec_left(),
        )
    }

    pub open spec fn spec_hull_height(self, other: Rect) -> int {
        larger(self.spec_bottom(), other.spec_bottom()) - smaller(
            self.spec_top(),
            other.spec_top(),
        )
    }

    /// The smallest rectangle around two rectangles.
    pub open spec fn spec_hull(self, other: Rect) -> Rect {
        Rect {
            pos: Point {
                x: smaller(self.spec_left(), other.spec_left()) as i32,
                y: smaller(self.spec_top(), other.spec_top()) as i32,
            },
            size: Size {
                width: self.spec_hull_width(other) as i32,
                height: self.spec_hull_height(other) as i32,
            },
        }
    }
}

impl core::ops::BitAnd for Rect {
    type Output = Option<Rect>;

    /// Return the intersection of two rectangles, or None if they don't
    /// intersect.
    fn bitand(self, other: Rect) -> (common: Option<Rect>) {
        let this_left: i64 = self.pos.x as i64;
        let this_top: i64 = self.pos.y as i64;
        let this_right: i64 = this_left + self.size.width as i64;
        let this_bottom: i64 = this_top + self.size.height as i64;

        let other_left: i64 = other.pos.x as i64;
        let other_top: i64 = other.pos.y as i64;
        let other_right: i64 = other_left + other.size.width as i64;
        let other_bottom: i64 = other_top + other.size.height as i64;

        let new_left: i64 = if this_left >= other_left {
            this_left
        } else {
            other_left
        };
        let new_top: i64 = if this_top >= other_top {
            this_top
        } else {
            other_top
        };
        let new_right: i64 = if this_right <= other_right {
            this_right
        } else {
            other_right
        };
        let new_bottom: i64 = if this_bottom <= other_bottom {
            this_bottom
        } else {
            other_bottom
        };
        if new_right - new_left > 0 && new_bottom - new_top > 0 {
            Some(
                Rect {
                    pos: Point { x: new_left as i32, y: new_top as i32 },
                    size: Size {
                        width: (new_right - new_left) as i32,
                        height: (new_bottom - new_top) as i32,
                    },
                },
            )
        } else {
            None
        }
    }
}

impl vstd::std_specs::ops::BitAndSpecImpl for Rect {
    open spec fn obeys_bitand_spec() -> bool {
        true
    }

    open spec fn bitand_req(self, other: Rect) -> bool {
        true
    }

    open spec fn bitand_spec(self, other: Rect) -> Option<Rect> {
        self.spec_intersection(other)
    }
}

impl core::ops::BitOr for Rect {
    type Output = Rect;

    /// Return the smallest rectangle around two rectangles.
    fn bitor(self, other: Rect) -> (hull: Rect) {
        let this_left: i64 = self.pos.x as i64;
        let this_top: i64 = self.pos.y as i64;
        let this_right: i64 = this_left + self.size.width as i64;
        let this_bottom: i64 = this_top + self.size.height as i64;

        let other_left: i64 = other.pos.x as i64;
        let other_top: i64 = other.pos.y as i64;
        let other_right: i64 = other_left + other.size.width as i64;
        let other_bottom: i64 = other_top + other.size.height as i64;

        let new_left: i64 = if this_left <= other_left {
            this_left
        } else {
            other_left
        };
        let new_top: i64 = if this_top <= other_top {
            this_top
        } else {
            other_top
        };
        let new_right: i64 = if this_right >= other_right {
            this_right
        } else {
            other_right
        };
        let new_bottom: i64 = if this_bottom >= other_bottom {
            this_bottom
        } else {
            other_bottom
        };
        Rect {
            pos: Point { x: new_left as i32, y: new_top as i32 },
            size: Size {
                width: (new_right - new_left) as i32,
                height: (new_bottom - new_top) as i32,
            },
        }
    }
}

impl vstd::std_specs::ops::BitOrSpecImpl for Rect {
    open spec fn obeys_bitor_spec() -> bool {
        true
    }

    open spec fn bitor_req(self, other: Rect) -> bool {
        fits_i32(self.spec_hull_width(other)) && fits_i32(self.spec_hull_height(other))
    }

    open spec fn bitor_spec(self, other: Rect) -> Rect {
        self.spec_hull(other)
    }
}

impl From<(i32, i32, i32, i32)> for Rect {
    fn from(value: (i32, i32, i32, i32)) -> (r: Rect) {
        Rect { pos: Point { x: value.0, y: value.1 }, size: Size { width: value.2, height: value.3 } }
    }
}

impl vstd::std_specs::convert::FromSpecImpl<(i32, i32, i32, i32)> for Rect {
    open spec fn obeys_from_spec() -> bool {
        true
    }

    open spec fn from_spec(value: (i32, i32, i32, i32)) -> Rect {
        Rect { pos: Point { x: value.0, y: value.1 }, size: Size { width: value.2, height: value.3 } }
    }
}

impl From<(i32, i32)> for Size {
    fn from(value: (i32, i32)) -> (s: Size) {
        Size { width: value.0, height: value.1 }
    }
}

impl vstd::std_specs::convert::FromSpecImpl<(i32, i32)> for Size {
    open spec fn obeys_from_spec() -> bool {
        true
    }

    open spec fn from_spec(value: (i32, i32)) -> Size {
        Size { width: value.0, height: value.1 }
    }
}

impl From<(i32, i32)> for Point {
    fn from(value: (i32, i32)) -> (p: Point) {
        Point { x: value.0, y: value.1 }
    }
}

impl vstd::std_specs::convert::FromSpecImpl<(i32, i32)> for Point {
    open spec fn obeys_from_spec() -> bool {
        true
    }

    open spec fn from_spec(value: (i32, i32)) -> Point {
        Point { x: value.0, y: value.1 }
    }
}

impl Rect {
    /// The rectangle as `(x, y, width, height)`.
    pub fn into_tuple(self) -> (t: (i32, i32, i32, i32))
        ensures
            t == (self.pos.x, self.pos.y, self.size.width, self.size.height),
    {
        (self.pos.x, self.pos.y, self.size.width, self.size.height)
    }
}

impl Size {
    /// The size as `(width, height)`.
    pub fn into_tuple(self) -> (t: (i32, i32))
        ensures
            t == (self.width, self.height),
    {
        (self.width, self.height)
    }
}

impl Point {
    /// The point as `(x, y)`.
    pub fn into_tuple(self) -> (t: (i32, i32))
        ensures
            t == (self.x, self.y),
    {
        (self.x, self.y)
    }
}

/// A point lies in the intersection of two rectangles exactly if it lies
/// in both; where there is no intersection, no point lies in both.
pub proof fn law_intersection(a: Rect, b: Rect, p: Point)
    ensures
        match a.spec_intersection(b) {
            Some(common) => p.spec_within(common) <==> p.spec_within(a) && p.spec_within(b),
            None => !(p.spec_within(a) && p.spec_within(b)),
        },
{
}

/// The intersection of two rectangles lies within both.
pub proof fn law_intersection_contained(a: Rect, b: Rect)
    requires
        a.spec_intersection(b) is Some,
    ensures
        a.spec_contains(a.spec_intersection(b)->0),
        b.spec_contains(a.spec_intersection(b)->0),
{
}

/// The hull of two rectangles that cover some pixels contains both.
pub proof fn law_hull_contains(a: Rect, b: Rect)
    requires
        a.size.width >= 0,
        a.size.height >= 0,
        b.size.width >= 0,
        b.size.height >= 0,
        a.edges_fit(),
        b.edges_fit(),
        fits_i32(a.spec_hull_width(b)),
        fits_i32(a.spec_hull_height(b)),
    ensures
        a.spec_hull(b).spec_contains(a),
        a.spec_hull(b).spec_contains(b),
{
}

/// A rectangle that contains another contains every point of it.
pub proof fn law_contains_points(outer: Rect, inner: Rect, p: Point)
    requires
        outer.spec_contains(inner),
        p.spec_within(inner),
    ensures
        p.spec_within(outer),
{
}

} // verus!
