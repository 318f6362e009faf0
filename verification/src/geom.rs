//! Integer 2D vectors in fixed-point units (thousandths of an engine unit).
//!
//! The engine works in floating point; the game logic here works on scaled
//! integers, so every step a callback takes can be stated and proved
//! exactly.  A coordinate of `1000` stands for one engine unit.

use vstd::prelude::*;

verus! {

/// Coordinates are kept well inside `i64`, so sums and small products in
/// the per-frame arithmetic cannot overflow.
pub const COORD_BOUND: i64 = 0x4000_0000_0000;

/// A 2D vector (or point) in fixed-point thousandths.
#[derive(Clone, Copy, PartialEq, Eq, Structural, Debug)]
pub struct Vec2i {
    pub x: i64,
    pub y: i64,
}

impl Vec2i {
    /// True when both coordinates are small enough for the frame
    /// arithmetic to stay inside `i64`.
    pub open spec fn in_bounds(self) -> bool {
        -COORD_BOUND <= self.x <= COORD_BOUND && -COORD_BOUND <= self.y <= COORD_BOUND
    }

    pub fn new(x: i64, y: i64) -> (v: Vec2i)
        ensures
            v.x == x,
            v.y == y,
    {
        Vec2i { x, y }
    }

    /// Squared length, the invariant quantity of a bounce.
    pub open spec fn norm_sq(self) -> int {
        self.x * self.x + self.y * self.y
    }
}

/// A 3D vector in fixed-point thousandths.
#[derive(Clone, Copy, PartialEq, Eq, Structural, Debug)]
pub struct Vec3i {
    pub x: i64,
    pub y: i64,
    pub z: i64,
}

/// What clamping into `lo..=hi` yields.
pub open spec fn spec_clamp(v: int, lo: int, hi: int) -> int {
    if v < lo {
        lo
    } else if v > hi {
        hi
    } else {
        v
    }
}

/// What clamping a point into the rectangle from the origin to `size`
/// yields.
pub open spec fn spec_clamp_rect(v: Vec2i, size: Vec2i) -> Vec2i {
    Vec2i { x: spec_clamp(v.x as int, 0, size.x as int) as i64, y: spec_clamp(v.y as int, 0, size.y as int) as i64 }
}

/// Clamp `v` into `lo..=hi`.
pub fn clamp_i64(v: i64, lo: i64, hi: i64) -> (r: i64)
    requires
        lo <= hi,
    ensures
        r == spec_clamp(v as int, lo as int, hi as int),
        lo <= r <= hi,
{
    if v < lo {
        lo
    } else if v > hi {
        hi
    } else {
        v
    }
}

/// Clamp a point into the axis-aligned rectangle from the origin to
/// `size`, as a sprite is kept on screen.
pub fn clamp_to_rect(v: Vec2i, size: Vec2i) -> (r: Vec2i)
    requires
        0 <= size.x,
        0 <= size.y,
    ensures
        r == spec_clamp_rect(v, size),
        0 <= r.x <= size.x,
        0 <= r.y <= size.y,
{
    Vec2i { x: clamp_i64(v.x, 0, size.x), y: clamp_i64(v.y, 0, size.y) }
}

/// What a velocity moves in one frame: the velocity (thousandths per
/// second) scaled by the frame time (microseconds), rounded toward zero
/// as the engine's integer conversion does.
pub open spec fn spec_scale(v: int, delta_us: int) -> int {
    if v >= 0 {
        v * delta_us / 1_000_000
    } else {
        -((-v) * delta_us / 1_000_000)
    }
}

/// Scale a signed velocity by a frame time.
pub fn scale_velocity(v: i64, delta_us: i64) -> (r: i64)
    requires
        -2_000_000_000 <= v <= 2_000_000_000,
        0 <= delta_us <= 10_000_000,
    ensures
        r == spec_scale(v as int, delta_us as int),
        -20_000_000_000 <= r <= 20_000_000_000,
{
    proof {
        let m = if v >= 0 {
            v as int
        } else {
            -(v as int)
        };
        let d = delta_us as int;
        assert(0 <= m * d <= 2_000_000_000 * 10_000_000int) by (nonlinear_arith)
            requires
                0 <= m <= 2_000_000_000,
                0 <= d <= 10_000_000,
        ;
        assert(0 <= m * d / 1_000_000 <= 20_000_000_000int) by (nonlinear_arith)
            requires
                0 <= m * d <= 2_000_000_000 * 10_000_000int,
        ;
    }
    if v >= 0 {
        (((v as u64) * (delta_us as u64)) / 1_000_000) as i64
    } else {
        let m = (((-v) as u64) * (delta_us as u64)) / 1_000_000;
        -(m as i64)
    }
}

/// Reflect the vertical component, as the ball does on the top and bottom
/// walls.
pub fn reflect_y(v: Vec2i) -> (r: Vec2i)
    requires
        v.y != i64::MIN,
    ensures
        r.x == v.x,
        r.y == -v.y,
{
    Vec2i { x: v.x, y: -v.y }
}

/// Reflecting a component of a direction vector preserves its magnitude:
/// the bounce off a wall changes course, never speed.
pub proof fn lemma_reflect_preserves_norm(v: Vec2i, r: Vec2i)
    requires
        r.x == v.x,
        r.y == -v.y,
    ensures
        r.norm_sq() == v.norm_sq(),
{
    let vy = v.y as int;
    assert((-vy) * (-vy) == vy * vy) by (nonlinear_arith);
}

} // verus!
