//! Axis-aligned rectangles with an intersection test; the leaf dependency of
//! every other module.

use vstd::prelude::*;

verus! {

/// Saturates an integer into the `i16` range.
pub open spec fn sat(v: int) -> int {
    if v < -0x8000 {
        -0x8000
    } else if v > 0x7fff {
        0x7fff
    } else {
        v
    }
}

/// Adds two `i16` values, saturating at the ends of the `i16` range.
pub fn sat_add(a: i16, b: i16) -> (r: i16)
    ensures
        r as int == sat(a as int + b as int),
{
    let s: i32 = a as i32 + b as i32;
    if s < -0x8000 {
        -0x8000
    } else if s > 0x7fff {
        0x7fff
    } else {
        s as i16
    }
}

/// Negates an `i16` value, saturating at the ends of the `i16` range.
pub fn sat_neg(a: i16) -> (r: i16)
    ensures
        r as int == sat(-(a as int)),
{
    let s: i32 = -(a as i32);
    if s > 0x7fff {
        0x7fff
    } else {
        s as i16
    }
}

#[derive(Clone, Copy, PartialEq, Eq, Structural, Debug)]
pub struct Point {
    pub x: i16,
    pub y: i16,
}

#[derive(Clone, Copy, PartialEq, Eq, Structural, Debug)]
pub struct Rect {
    pub position: Point,
    pub width: i16,
    pub height: i16,
}

impl Rect {
    /// Left edge, as a mathematical integer.
    pub open spec fn spec_left(self) -> int {
        self.position.x as int
    }

    /// Right edge (left edge plus width), as a mathematical integer.
    pub open spec fn spec_right(self) -> int {
        self.position.x + self.width
    }

    /// Top edge, as a mathematical integer.
    pub open spec fn spec_top(self) -> int {
        self.position.y as int
    }

    /// Bottom edge (top edge plus height), as a mathematical integer.
    pub open spec fn spec_bottom(self) -> int {
        self.position.y + self.height
    }

    /// The projections of the two rectangles overlap on both axes.
    ///
    /// The edge convention is deliberately asymmetric: `self`'s low edge must
    /// lie strictly before `other`'s high edge, while `self`'s high edge may
    /// merely touch `other`'s low edge. Touching along `self`'s right or
    /// bottom edge therefore counts as an intersection, touching along its
    /// left or top edge does not.
    pub open spec fn spec_intersects(self, other: Rect) -> bool {
        &&& self.spec_left() < other.spec_right()
        &&& self.spec_right() >= other.spec_left()
        &&& self.spec_top() < other.spec_bottom()
        &&& self.spec_bottom() >= other.spec_top()
    }

    pub fn new(position: Point, width: i16, height: i16) -> (r: Rect)
        ensures
            r == (Rect { position, width, height }),
    {
        Rect { position, width, height }
    }

    pub fn new_from_x_y(x: i16, y: i16, width: i16, height: i16) -> (r: Rect)
        ensures
            r == (Rect { position: Point { x, y }, width, height }),
    {
        Rect::new(Point { x, y }, width, height)
    }

    pub fn bottom(&self) -> (r: i16)
        ensures
            r as int == sat(self.spec_bottom()),
    {
        sat_add(self.position.y, self.height)
    }

    pub fn intersects(&self, other: &Rect) -> (r: bool)
        ensures
            r == self.spec_intersects(*other),
    {
        let sl: i32 = self.position.x as i32;
        let sr: i32 = self.position.x as i32 + self.width as i32;
        let st: i32 = self.position.y as i32;
        let sb: i32 = self.position.y as i32 + self.height as i32;
        let ol: i32 = other.position.x as i32;
        let or: i32 = other.position.x as i32 + other.width as i32;
        let ot: i32 = other.position.y as i32;
        let ob: i32 = other.position.y as i32 + other.height as i32;
        sl < or && sr >= ol && st < ob && sb >= ot
    }

    pub fn left(&self) -> (r: i16)
        ensures
            r == self.position.x,
    {
        self.x()
    }

    pub fn right(&self) -> (r: i16)
        ensures
            r as int == sat(self.spec_right()),
    {
        sat_add(self.position.x, self.width)
    }

    pub fn set_x(&mut self, x: i16)
        ensures
            *final(self) == (Rect { position: Point { x, y: old(self).position.y }, ..*old(self) }),
    {
        self.position.x = x;
    }

    pub fn top(&self) -> (r: i16)
        ensures
            r == self.position.y,
    {
        self.y()
    }

    pub fn x(&self) -> (r: i16)
        ensures
            r == self.position.x,
    {
        self.position.x
    }

    pub fn y(&self) -> (r: i16)
        ensures
            r == self.position.y,
    {
        self.position.y
    }
}

impl Default for Point {
    fn default() -> (r: Point)
        ensures
            r == (Point { x: 0, y: 0 }),
    {
        Point { x: 0, y: 0 }
    }
}

impl Default for Rect {
    fn default() -> (r: Rect)
        ensures
            r == (Rect { position: Point { x: 0, y: 0 }, width: 0, height: 0 }),
    {
        Rect { position: Point { x: 0, y: 0 }, width: 0, height: 0 }
    }
}

/// Law: the intersection test is symmetric whenever no pair of facing edges
/// touches exactly. (With a touching pair, the asymmetric edge convention
/// decides the two directions differently.)
pub proof fn lemma_intersects_symmetric(a: Rect, b: Rect)
    requires
        a.spec_right() != b.spec_left(),
        b.spec_right() != a.spec_left(),
        a.spec_bottom() != b.spec_top(),
        b.spec_bottom() != a.spec_top(),
    ensures
        a.spec_intersects(b) == b.spec_intersects(a),
{
}

} // verus!
