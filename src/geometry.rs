//! Integer plane geometry: positions, aim vectors, proximity and circle points.
use vstd::prelude::*;

verus! {

/// A position in whole arena units.
#[derive(Clone, Copy, Debug, PartialEq, Eq, Structural)]
pub struct Pos {
    pub x: i32,
    pub y: i32,
}

/// A direction, given by any vector along it; the zero vector is no direction.
#[derive(Clone, Copy, Debug, PartialEq, Eq, Structural)]
pub struct Vec2i {
    pub x: i64,
    pub y: i64,
}

/// Distance under which a projectile hits and a pickup is collected.
pub const PROXIMITY: i64 = 20;

/// Number of points in the circle table.
pub const COMPASS_POINTS: usize = 20;

/// Radius of the circle table.
pub const COMPASS_RADIUS: i64 = 50;

pub open spec fn dist2(a: Pos, b: Pos) -> int {
    (a.x - b.x) * (a.x - b.x) + (a.y - b.y) * (a.y - b.y)
}

/// True when `a` and `b` are closer than `PROXIMITY` (Euclidean).
pub open spec fn near(a: Pos, b: Pos) -> bool {
    dist2(a, b) < PROXIMITY * PROXIMITY
}

pub open spec fn clamp_i32(v: int) -> int {
    if v > i32::MAX {
        i32::MAX as int
    } else if v < i32::MIN {
        i32::MIN as int
    } else {
        v
    }
}

/// `p` moved by `(dx, dy)`, each coordinate held to the range of `i32`.
pub open spec fn shifted(p: Pos, dx: int, dy: int) -> Pos {
    Pos { x: clamp_i32(p.x + dx) as i32, y: clamp_i32(p.y + dy) as i32 }
}

/// The vector from `from` to `to`.
pub open spec fn towards(from: Pos, to: Pos) -> Vec2i {
    Vec2i { x: (to.x - from.x) as i64, y: (to.y - from.y) as i64 }
}

pub open spec fn is_zero(v: Vec2i) -> bool {
    v.x == 0 && v.y == 0
}

/// The points with integer coordinates on the circle of radius 50 about the
/// origin, counter-clockwise from `(50, 0)`.
pub open spec fn compass_spec(i: int) -> (int, int) {
    if i == 0 { (50, 0) }
    else if i == 1 { (48, 14) }
    else if i == 2 { (40, 30) }
    else if i == 3 { (30, 40) }
    else if i == 4 { (14, 48) }
    else if i == 5 { (0, 50) }
    else if i == 6 { (-14, 48) }
    else if i == 7 { (-30, 40) }
    else if i == 8 { (-40, 30) }
    else if i == 9 { (-48, 14) }
    else if i == 10 { (-50, 0) }
    else if i == 11 { (-48, -14) }
    else if i == 12 { (-40, -30) }
    else if i == 13 { (-30, -40) }
    else if i == 14 { (-14, -48) }
    else if i == 15 { (0, -50) }
    else if i == 16 { (14, -48) }
    else if i == 17 { (30, -40) }
    else if i == 18 { (40, -30) }
    else { (48, -14) }
}

/// Every point of the table lies on the circle of radius `COMPASS_RADIUS`.
pub proof fn lemma_compass_on_circle(i: int)
    requires
        0 <= i < COMPASS_POINTS,
    ensures
        compass_spec(i).0 * compass_spec(i).0 + compass_spec(i).1 * compass_spec(i).1
            == COMPASS_RADIUS * COMPASS_RADIUS,
{
}

/// Point `i` of the circle table.
pub fn compass(i: usize) -> (r: (i64, i64))
    requires
        i < COMPASS_POINTS,
    ensures
        r.0 == compass_spec(i as int).0,
        r.1 == compass_spec(i as int).1,
{
    match i {
        0 => (50, 0),
        1 => (48, 14),
        2 => (40, 30),
        3 => (30, 40),
        4 => (14, 48),
        5 => (0, 50),
        6 => (-14, 48),
        7 => (-30, 40),
        8 => (-40, 30),
        9 => (-48, 14),
        10 => (-50, 0),
        11 => (-48, -14),
        12 => (-40, -30),
        13 => (-30, -40),
        14 => (-14, -48),
        15 => (0, -50),
        16 => (14, -48),
        17 => (30, -40),
        18 => (40, -30),
        _ => (48, -14),
    }
}

fn clamp_coord(v: i64) -> (r: i32)
    ensures
        r == clamp_i32(v as int),
{
    if v > i32::MAX as i64 {
        i32::MAX
    } else if v < i32::MIN as i64 {
        i32::MIN
    } else {
        v as i32
    }
}

impl Pos {
    pub fn new(x: i32, y: i32) -> (r: Pos)
        ensures
            r.x == x,
            r.y == y,
    {
        Pos { x, y }
    }

    /// This position moved by `(dx, dy)`, held to the range of `i32`.
    pub fn shift(&self, dx: i64, dy: i64) -> (r: Pos)
        requires
            -0x1_0000_0000 <= dx <= 0x1_0000_0000,
            -0x1_0000_0000 <= dy <= 0x1_0000_0000,
        ensures
            r == shifted(*self, dx as int, dy as int),
    {
        Pos { x: clamp_coord(self.x as i64 + dx), y: clamp_coord(self.y as i64 + dy) }
    }

    /// The vector from this position to `to`.
    pub fn towards(&self, to: &Pos) -> (r: Vec2i)
        ensures
            r == towards(*self, *to),
            r.x == to.x - self.x,
            r.y == to.y - self.y,
    {
        Vec2i { x: to.x as i64 - self.x as i64, y: to.y as i64 - self.y as i64 }
    }

    /// True when `other` is closer than `PROXIMITY`.
    pub fn is_near(&self, other: &Pos) -> (r: bool)
        ensures
            r == near(*self, *other),
    {
        let dx = self.x as i64 - other.x as i64;
        let dy = self.y as i64 - other.y as i64;
        proof {
            assert(0 <= dx * dx <= 0x1_0000_0000 * 0x1_0000_0000) by (nonlinear_arith)
                requires
                    -0x1_0000_0000 <= dx <= 0x1_0000_0000,
            ;
            assert(0 <= dy * dy <= 0x1_0000_0000 * 0x1_0000_0000) by (nonlinear_arith)
                requires
                    -0x1_0000_0000 <= dy <= 0x1_0000_0000,
            ;
        }
        let d2 = (dx as i128) * (dx as i128) + (dy as i128) * (dy as i128);
        d2 < (PROXIMITY * PROXIMITY) as i128
    }
}

impl Vec2i {
    pub fn is_zero(&self) -> (r: bool)
        ensures
            r == is_zero(*self),
    {
        self.x == 0 && self.y == 0
    }
}

} // verus!
