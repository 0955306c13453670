//! Plane geometry for the arena: integer 2-D vectors, axis-aligned
//! rectangles with their intersection test, the integer square root, and the
//! aiming function that turns a direction into a velocity of a given speed.

use vstd::prelude::*;
use crate::config::{DELTA_LIMIT, POS_LIMIT, VEL_LIMIT};

verus! {

/// A 2-D vector in world coordinates (thousandths of a pixel).
#[derive(Clone, Copy, PartialEq, Eq, Structural, Debug)]
pub struct Vec2I {
    pub x: i64,
    pub y: i64,
}

impl Vec2I {
    pub fn new(x: i64, y: i64) -> (v: Vec2I)
        ensures
            v.x == x,
            v.y == y,
    {
        Vec2I { x, y }
    }

    /// The zero vector.
    pub fn zero() -> (v: Vec2I)
        ensures
            v.x == 0,
            v.y == 0,
    {
        Vec2I { x: 0, y: 0 }
    }
}

/// An axis-aligned rectangle in world coordinates: corner at `(x, y)`,
/// extending `w` to the right and `h` downward.
#[derive(Clone, Copy, PartialEq, Eq, Structural, Debug)]
pub struct Rect {
    pub x: i64,
    pub y: i64,
    pub w: i64,
    pub h: i64,
}

/// Two rectangles overlap when their interiors share a point; rectangles
/// that merely touch along an edge, and empty rectangles, do not overlap.
pub open spec fn rects_overlap(a: Rect, b: Rect) -> bool {
    &&& 0 < a.w
    &&& 0 < a.h
    &&& 0 < b.w
    &&& 0 < b.h
    &&& a.x < b.x + b.w
    &&& b.x < a.x + a.w
    &&& a.y < b.y + b.h
    &&& b.y < a.y + a.h
}

impl Rect {
    pub fn new(x: i64, y: i64, w: i64, h: i64) -> (r: Rect)
        ensures
            r == (Rect { x, y, w, h }),
    {
        Rect { x, y, w, h }
    }

    /// The axis-aligned bounding-box intersection test of the collision
    /// pass.
    pub fn intersects(&self, other: &Rect) -> (r: bool)
        requires
            0 <= self.w,
            0 <= self.h,
            0 <= other.w,
            0 <= other.h,
            self.x + self.w <= i64::MAX,
            self.y + self.h <= i64::MAX,
            other.x + other.w <= i64::MAX,
            other.y + other.h <= i64::MAX,
        ensures
            r == rects_overlap(*self, *other),
    {
        0 < self.w && 0 < self.h && 0 < other.w && 0 < other.h && self.x < other.x + other.w
            && other.x < self.x + self.w && self.y < other.y + other.h && other.y < self.y + self.h
    }
}

/// `r` is the integer square root of `n`.
pub open spec fn is_sqrt_of(n: int, r: int) -> bool {
    &&& 0 <= r
    &&& r * r <= n
    &&& n < (r + 1) * (r + 1)
}

/// The integer square root (the unique `r` with `r * r <= n < (r+1)*(r+1)`).
pub open spec fn sqrt_of(n: int) -> int {
    choose|r: int| is_sqrt_of(n, r)
}

/// The integer square root is unique.
pub proof fn lemma_sqrt_unique(n: int, r: int)
    requires
        is_sqrt_of(n, r),
    ensures
        r == sqrt_of(n),
{
    let s = sqrt_of(n);
    assert(is_sqrt_of(n, s));
    assert(r == s) by (nonlinear_arith)
        requires
            is_sqrt_of(n, r),
            is_sqrt_of(n, s),
    ;
}

/// Bounding a product by the bounds of its factors.
pub proof fn lemma_mul_bound(a: int, b: int, al: int, bl: int)
    requires
        -al <= a <= al,
        0 <= b <= bl,
    ensures
        -(al * bl) <= a * b <= al * bl,
{
    assert(-(al * bl) <= a * b <= al * bl) by (nonlinear_arith)
        requires
            -al <= a <= al,
            0 <= b <= bl,
    ;
}

/// Integer square root by bisection.
pub fn isqrt(n: u128) -> (r: u64)
    requires
        n < 0x40000000000000000000000000000000,
    ensures
        is_sqrt_of(n as int, r as int),
        r == sqrt_of(n as int),
        r < 0x8000000000000000,
{
    let mut lo: u128 = 0;
    let mut hi: u128 = 0x8000000000000000;
    proof {
        assert((hi as int) * (hi as int) == 0x40000000000000000000000000000000int) by (nonlinear_arith)
            requires
                hi == 0x8000000000000000u128,
        ;
    }
    while lo + 1 < hi
        invariant
            0 <= lo < hi <= 0x8000000000000000,
            (lo as int) * (lo as int) <= n as int,
            (n as int) < (hi as int) * (hi as int),
        decreases hi - lo,
    {
        let mid: u128 = lo + (hi - lo) / 2;
        assert(lo < mid < hi);
        proof {
            assert(mid * mid <= 0x40000000000000000000000000000000int) by (nonlinear_arith)
                requires
                    0 <= mid <= 0x8000000000000000u128,
            ;
        }
        if mid * mid <= n {
            lo = mid;
        } else {
            hi = mid;
        }
    }
    proof {
        assert(is_sqrt_of(n as int, lo as int));
        lemma_sqrt_unique(n as int, lo as int);
    }
    lo as u64
}

/// Magnitude of an integer.
pub open spec fn abs_of(a: int) -> int {
    if a < 0 {
        -a
    } else {
        a
    }
}

/// One component of a direction vector, scaled so that the whole vector
/// gets magnitude `speed`: `delta * speed / len`, rounded toward zero.
pub open spec fn scale_toward(delta: int, speed: int, len: int) -> int {
    if delta >= 0 {
        (delta * speed) / len
    } else {
        -((-delta * speed) / len)
    }
}

/// Length of the direction `(dx, dy)`, rounded down.
pub open spec fn aim_len(dx: int, dy: int) -> int {
    sqrt_of(dx * dx + dy * dy)
}

/// Horizontal component of the velocity of a projectile fired along
/// `(dx, dy)` with speed `speed`.  A zero direction falls back to straight
/// up, so that firing at one's own position aims somewhere definite.
pub open spec fn aim_vel_x(dx: int, dy: int, speed: int) -> int {
    if dx == 0 && dy == 0 {
        0
    } else {
        scale_toward(dx, speed, aim_len(dx, dy))
    }
}

/// Vertical component; see `aim_vel_x`.
pub open spec fn aim_vel_y(dx: int, dy: int, speed: int) -> int {
    if dx == 0 && dy == 0 {
        -speed
    } else {
        scale_toward(dy, speed, aim_len(dx, dy))
    }
}

/// Scales the direction `(dx, dy)` to a velocity of magnitude `speed`
/// (componentwise never exceeding `speed`).  The zero direction falls back
/// to straight up.
pub fn aim_velocity(dx: i64, dy: i64, speed: i64) -> (v: Vec2I)
    requires
        -DELTA_LIMIT <= dx <= DELTA_LIMIT,
        -DELTA_LIMIT <= dy <= DELTA_LIMIT,
        0 < speed <= VEL_LIMIT,
    ensures
        v.x == aim_vel_x(dx as int, dy as int, speed as int),
        v.y == aim_vel_y(dx as int, dy as int, speed as int),
        -speed <= v.x <= speed,
        -speed <= v.y <= speed,
{
    if dx == 0 && dy == 0 {
        return Vec2I { x: 0, y: -speed };
    }
    let mx: u128 = (if dx < 0 {
        -dx
    } else {
        dx
    }) as u128;
    let my: u128 = (if dy < 0 {
        -dy
    } else {
        dy
    }) as u128;
    proof {
        assert((mx as int) * (mx as int) == dx * dx && (my as int) * (my as int) == dy * dy
            && mx * mx + my * my < 0x40000000000000000000000000000000 && 1 <= mx * mx + my * my)
            by (nonlinear_arith)
            requires
                mx == abs_of(dx as int),
                my == abs_of(dy as int),
                mx <= DELTA_LIMIT,
                my <= DELTA_LIMIT,
                1 <= mx || 1 <= my,
        ;
    }
    let n: u128 = mx * mx + my * my;
    let len: u64 = isqrt(n);
    proof {
        assert(1 <= len) by (nonlinear_arith)
            requires
                is_sqrt_of(n as int, len as int),
                1 <= n,
        ;
        assert(mx <= len && my <= len) by (nonlinear_arith)
            requires
                is_sqrt_of(n as int, len as int),
                n == mx * mx + my * my,
                0 <= mx,
                0 <= my,
        ;
        assert(mx * (speed as u128) <= (len as int) * (speed as int)
            && my * (speed as u128) <= (len as int) * (speed as int)
            && (len as int) * (speed as int) <= 0xffffffffffffffffffffffffffffffffint)
            by (nonlinear_arith)
            requires
                0 <= mx <= len,
                0 <= my <= len,
                0 < speed <= VEL_LIMIT,
                len <= 0x8000000000000000u128,
        ;
        vstd::arithmetic::div_mod::lemma_div_is_ordered(
            (mx as int) * (speed as int),
            (len as int) * (speed as int),
            len as int,
        );
        vstd::arithmetic::div_mod::lemma_div_is_ordered(
            (my as int) * (speed as int),
            (len as int) * (speed as int),
            len as int,
        );
        vstd::arithmetic::div_mod::lemma_div_by_multiple(speed as int, len as int);
        vstd::arithmetic::mul::lemma_mul_is_commutative(speed as int, len as int);
    }
    let qx: u128 = mx * (speed as u128) / (len as u128);
    let qy: u128 = my * (speed as u128) / (len as u128);
    let vx: i64 = if dx < 0 {
        -(qx as i64)
    } else {
        qx as i64
    };
    let vy: i64 = if dy < 0 {
        -(qy as i64)
    } else {
        qy as i64
    };
    Vec2I { x: vx, y: vy }
}

/// Squared distance between two points.
pub open spec fn dist_sq(a: Vec2I, b: Vec2I) -> int {
    (a.x - b.x) * (a.x - b.x) + (a.y - b.y) * (a.y - b.y)
}

/// Whether two points lie closer than `range` to each other.
pub fn within_range(a: &Vec2I, b: &Vec2I, range: i64) -> (r: bool)
    requires
        -POS_LIMIT <= a.x <= POS_LIMIT,
        -POS_LIMIT <= a.y <= POS_LIMIT,
        -POS_LIMIT <= b.x <= POS_LIMIT,
        -POS_LIMIT <= b.y <= POS_LIMIT,
        0 <= range <= POS_LIMIT,
    ensures
        r == (dist_sq(*a, *b) < range * range),
{
    let dx: i128 = a.x as i128 - b.x as i128;
    let dy: i128 = a.y as i128 - b.y as i128;
    proof {
        assert(0 <= dx * dx <= 4 * (POS_LIMIT as int) * (POS_LIMIT as int)
            && 0 <= dy * dy <= 4 * (POS_LIMIT as int) * (POS_LIMIT as int)
            && 0 <= (range as int) * (range as int) <= (POS_LIMIT as int) * (POS_LIMIT as int))
            by (nonlinear_arith)
            requires
                -2 * (POS_LIMIT as int) <= dx <= 2 * (POS_LIMIT as int),
                -2 * (POS_LIMIT as int) <= dy <= 2 * (POS_LIMIT as int),
                0 <= range <= POS_LIMIT,
        ;
    }
    dx * dx + dy * dy < (range as i128) * (range as i128)
}

/// Clamping a coordinate into the representable playing field.
pub open spec fn clamp_coord(p: int) -> int {
    if p < -(POS_LIMIT as int) {
        -(POS_LIMIT as int)
    } else if p > POS_LIMIT as int {
        POS_LIMIT as int
    } else {
        p
    }
}

} // verus!
