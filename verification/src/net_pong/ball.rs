//! The ball.  Both peers integrate its motion so each sees it move
//! smoothly; the wall bounces reflect its course; each peer declares a
//! point only when the ball leaves its own side of the screen.  The
//! direction is kept as a thousandths-scaled unit vector, renormalized
//! with an integer square root after every paddle bounce.

use crate::geom::{reflect_y, Vec2i, COORD_BOUND};
use vstd::arithmetic::div_mod::{lemma_div_is_ordered, lemma_div_multiples_vanish};
use vstd::prelude::*;

verus! {

/// The ball's speed after a reset, in thousandths per second.
pub const DEFAULT_SPEED: i64 = 100_000;

/// The model's speed ceiling, far above anything a rally reaches: the
/// engine's floating-point speed grows without bound, the fixed-point
/// one saturates here.
pub const BALL_SPEED_CAP: i64 = 10_000_000;

/// Upper bound on a frame duration, in microseconds.
pub const DELTA_CAP: i64 = 10_000_000;

/// The integer square root: the largest `r` with `r * r <= n`.
pub open spec fn sqrt_floor(n: int) -> int
    decreases n,
{
    if n <= 0 {
        0
    } else {
        let s = sqrt_floor(n - 1);
        if (s + 1) * (s + 1) <= n {
            s + 1
        } else {
            s
        }
    }
}

/// `sqrt_floor` is what its name says: its square is at most `n`, the
/// next square is beyond it.
pub proof fn lemma_sqrt_floor_bounds(n: int)
    requires
        n >= 0,
    ensures
        sqrt_floor(n) >= 0,
        sqrt_floor(n) * sqrt_floor(n) <= n,
        n < (sqrt_floor(n) + 1) * (sqrt_floor(n) + 1),
    decreases n,
{
    if n == 0 {
    } else {
        lemma_sqrt_floor_bounds(n - 1);
        let s = sqrt_floor(n - 1);
        if (s + 1) * (s + 1) <= n {
            assert(n - 1 < (s + 1) * (s + 1));
            assert(n == (s + 1) * (s + 1));
            assert((s + 1) * (s + 1) < (s + 2) * (s + 2)) by (nonlinear_arith)
                requires
                    s >= 0,
            ;
        }
    }
}

/// Any `r` with `r * r <= n < (r + 1)^2` is the integer square root.
pub proof fn lemma_sqrt_floor_unique(n: int, r: int)
    requires
        n >= 0,
        r >= 0,
        r * r <= n,
        n < (r + 1) * (r + 1),
    ensures
        r == sqrt_floor(n),
{
    lemma_sqrt_floor_bounds(n);
    let s = sqrt_floor(n);
    assert(r < s ==> (r + 1) * (r + 1) <= s * s) by (nonlinear_arith)
        requires
            r >= 0,
            s >= 0,
    ;
    assert(s < r ==> (s + 1) * (s + 1) <= r * r) by (nonlinear_arith)
        requires
            r >= 0,
            s >= 0,
    ;
}

/// Compute the integer square root by counting up to it.
pub fn isqrt(n: u64) -> (r: u64)
    requires
        n <= 100_000_000,
    ensures
        r as int == sqrt_floor(n as int),
        r * r <= n,
        n < (r + 1) * (r + 1),
        r <= 10_000,
{
    let mut r: u64 = 0;
    let mut rr: u64 = 0;
    while rr + 2 * r + 1 <= n
        invariant
            n <= 100_000_000,
            rr == r * r,
            r * r <= n,
            r <= 10_000,
        decreases n - r,
    {
        proof {
            let ri = r as int;
            assert((ri + 1) * (ri + 1) == ri * ri + 2 * ri + 1) by (nonlinear_arith);
            assert((ri + 1) * (ri + 1) <= n ==> ri + 1 <= n) by (nonlinear_arith)
                requires
                    ri >= 0,
            ;
            assert((ri + 1) * (ri + 1) <= 100_000_000 ==> ri + 1 <= 10_000) by (nonlinear_arith)
                requires
                    ri >= 0,
            ;
        }
        rr = rr + 2 * r + 1;
        r = r + 1;
    }
    proof {
        let ri = r as int;
        assert((ri + 1) * (ri + 1) == ri * ri + 2 * ri + 1) by (nonlinear_arith);
        lemma_sqrt_floor_unique(n as int, r as int);
    }
    r
}

/// Scaling a component to thousandths of the vector's length, rounded
/// toward zero.
pub open spec fn spec_milli_div(x: int, l: int) -> int {
    if x >= 0 {
        x * 1000 / l
    } else {
        -((-x) * 1000 / l)
    }
}

/// The thousandths-scaled unit vector along `v`; the zero vector stays
/// zero, as the engine's normalization leaves it.
pub open spec fn spec_normalize(v: Vec2i) -> Vec2i {
    if v.norm_sq() == 0 {
        v
    } else {
        let l = sqrt_floor(v.norm_sq());
        Vec2i { x: spec_milli_div(v.x as int, l) as i64, y: spec_milli_div(v.y as int, l) as i64 }
    }
}

/// Normalize `v` to a thousandths-scaled unit vector.  Both components
/// come out within `±1000`.
pub fn normalize_milli(v: Vec2i) -> (r: Vec2i)
    requires
        -2000 <= v.x <= 2000,
        -2000 <= v.y <= 2000,
    ensures
        r == spec_normalize(v),
        -1000 <= r.x <= 1000,
        -1000 <= r.y <= 1000,
{
    proof {
        assert(0 <= v.x * v.x <= 4_000_000 && 0 <= v.y * v.y <= 4_000_000) by (nonlinear_arith)
            requires
                -2000 <= v.x <= 2000,
                -2000 <= v.y <= 2000,
        ;
    }
    let nsq: u64 = ((v.x * v.x) as u64) + ((v.y * v.y) as u64);
    if nsq == 0 {
        proof {
            assert(v.x == 0 && v.y == 0) by (nonlinear_arith)
                requires
                    v.x * v.x + v.y * v.y == 0,
            ;
        }
        v
    } else {
        let l = isqrt(nsq);
        proof {
            let li = l as int;
            assert((li + 1) * (li + 1) == li * li + 2 * li + 1) by (nonlinear_arith);
            if l == 0 {
                assert(nsq < 1);
            }
            assert(v.x * v.x <= l * l + 2 * l);
            assert(v.y * v.y <= l * l + 2 * l);
        }
        let rx = milli_component(v.x, l);
        let ry = milli_component(v.y, l);
        Vec2i { x: rx, y: ry }
    }
}

/// One component of a normalization: `x * 1000 / l`, rounded toward
/// zero, where `l` is the vector's length and `x` one of its
/// components, so `|x| <= l`.
fn milli_component(x: i64, l: u64) -> (r: i64)
    requires
        -2000 <= x <= 2000,
        1 <= l <= 10_000,
        x * x <= l * l + 2 * l,
    ensures
        r as int == spec_milli_div(x as int, l as int),
        -1000 <= r <= 1000,
{
    proof {
        let xa = if x >= 0 {
            x as int
        } else {
            -(x as int)
        };
        assert(xa * xa == x * x) by (nonlinear_arith)
            requires
                xa == x as int || xa == -(x as int),
        ;
        assert(xa <= l) by (nonlinear_arith)
            requires
                0 <= xa,
                l >= 1,
                xa * xa <= l * l + 2 * l,
        ;
        lemma_div_is_ordered(xa * 1000, (l as int) * 1000, l as int);
        lemma_div_multiples_vanish(1000, l as int);
        assert((l as int) * 1000 == 1000 * (l as int));
        assert(xa * 1000 / (l as int) <= 1000);
    }
    let xa: u64 = if x >= 0 {
        x as u64
    } else {
        (-x) as u64
    };
    let mag = (xa * 1000) / l;
    if x >= 0 {
        mag as i64
    } else {
        -(mag as i64)
    }
}

/// What one scored point reports: `false` means the point goes to the
/// right side (the ball left on the left), `true` to the left side.
pub open spec fn spec_score(pos: Vec2i, screen: Vec2i, is_authority: bool) -> Option<bool> {
    if is_authority && pos.x < 0 {
        Option::Some(false)
    } else if !is_authority && pos.x > screen.x {
        Option::Some(true)
    } else {
        Option::None
    }
}

/// Whether the ball is beyond the top or bottom wall and still heading
/// outward.
pub open spec fn spec_wall_bounce(pos: Vec2i, dir: Vec2i, screen: Vec2i) -> bool {
    (pos.y < 0 && dir.y < 0) || (pos.y > screen.y && dir.y > 0)
}

/// One axis of the frame translation: direction component (thousandths)
/// times speed (thousandths per second) times frame time (microseconds).
pub open spec fn spec_ball_axis(c: int, speed: int, delta_us: int) -> int {
    if c >= 0 {
        c * speed * delta_us / 1_000_000_000
    } else {
        -((-c) * speed * delta_us / 1_000_000_000)
    }
}

/// The speed after one frame: it creeps up with time, saturating at the
/// model's ceiling.
pub open spec fn spec_frame_speed(speed: int, delta_us: int) -> int {
    if speed + delta_us / 1000 <= BALL_SPEED_CAP {
        speed + delta_us / 1000
    } else {
        BALL_SPEED_CAP as int
    }
}

/// The speed after a paddle bounce: a tenth faster, saturating at the
/// model's ceiling.
pub open spec fn spec_bounce_speed(speed: int) -> int {
    if speed + speed / 10 <= BALL_SPEED_CAP {
        speed + speed / 10
    } else {
        BALL_SPEED_CAP as int
    }
}

/// One frame's outcome: where the ball is now, and whether this peer
/// declares a point (`Some(add_to_left)`).
#[derive(Clone, Copy, PartialEq, Eq, Structural, Debug)]
pub struct BallFrame {
    pub position: Vec2i,
    pub scored: Option<bool>,
}

/// The ball: its course as a thousandths-scaled unit vector, whether it
/// has been stopped, and its speed.
#[derive(Clone, Copy, PartialEq, Eq, Structural, Debug)]
pub struct Ball {
    pub direction: Vec2i,
    pub stopped: bool,
    pub speed: i64,
}

impl Ball {
    /// The direction stays a scaled unit vector (or zero) and the speed
    /// inside the model's ceiling.
    pub open spec fn wf(self) -> bool {
        &&& -1000 <= self.direction.x <= 1000
        &&& -1000 <= self.direction.y <= 1000
        &&& 0 <= self.speed <= BALL_SPEED_CAP
    }

    /// A fresh ball, heading left at the default speed.
    pub fn init() -> (b: Ball)
        ensures
            b.direction == (Vec2i { x: -1000i64, y: 0 }),
            !b.stopped,
            b.speed == DEFAULT_SPEED,
            b.wf(),
    {
        Ball { direction: Vec2i { x: -1000i64, y: 0 }, stopped: false, speed: DEFAULT_SPEED }
    }

    /// One frame.  The speed creeps up; unless stopped, the ball moves
    /// along its course; leaving the top or bottom while heading out
    /// reflects the course for the next frame; and the peer that owns
    /// the side the ball left declares the point.
    pub fn process(
        &mut self,
        position: Vec2i,
        delta_us: i64,
        screen: Vec2i,
        is_authority: bool,
    ) -> (out: BallFrame)
        requires
            old(self).wf(),
            position.in_bounds(),
            0 <= screen.x <= COORD_BOUND,
            0 <= screen.y <= COORD_BOUND,
            0 <= delta_us <= DELTA_CAP,
        ensures
            final(self).speed == spec_frame_speed(old(self).speed as int, delta_us as int),
            out.position == if old(self).stopped {
                position
            } else {
                Vec2i {
                    x: (position.x + spec_ball_axis(
                        old(self).direction.x as int,
                        final(self).speed as int,
                        delta_us as int,
                    )) as i64,
                    y: (position.y + spec_ball_axis(
                        old(self).direction.y as int,
                        final(self).speed as int,
                        delta_us as int,
                    )) as i64,
                }
            },
            final(self).direction == if spec_wall_bounce(out.position, old(self).direction, screen) {
                Vec2i { x: old(self).direction.x, y: (-old(self).direction.y) as i64 }
            } else {
                old(self).direction
            },
            out.scored == spec_score(out.position, screen, is_authority),
            final(self).stopped == old(self).stopped,
            final(self).wf(),
            -COORD_BOUND - 400_000_000 <= out.position.x <= COORD_BOUND + 400_000_000,
            -COORD_BOUND - 400_000_000 <= out.position.y <= COORD_BOUND + 400_000_000,
    {
        let creep: i64 = ((delta_us as u64) / 1000) as i64;
        if self.speed + creep <= BALL_SPEED_CAP {
            self.speed = self.speed + creep;
        } else {
            self.speed = BALL_SPEED_CAP;
        }

        let pos = if !self.stopped {
            let tx = ball_axis(self.direction.x, self.speed, delta_us);
            let ty = ball_axis(self.direction.y, self.speed, delta_us);
            Vec2i { x: position.x + tx, y: position.y + ty }
        } else {
            position
        };

        if (pos.y < 0 && self.direction.y < 0) || (pos.y > screen.y && self.direction.y > 0) {
            self.direction = reflect_y(self.direction);
        }

        let scored: Option<bool> = if is_authority {
            if pos.x < 0 {
                Some(false)
            } else {
                None
            }
        } else {
            if pos.x > screen.x {
                Some(true)
            } else {
                None
            }
        };

        BallFrame { position: pos, scored }
    }

    /// A paddle bounce (a remote call made on both peers): the course
    /// turns away from the named side, its vertical part is redrawn from
    /// the bouncing peer's random value, the vector is renormalized, and
    /// the ball speeds up by a tenth.
    pub fn bounce(&mut self, is_left: bool, random_milli: i64)
        requires
            old(self).wf(),
            0 <= random_milli <= 1000,
        ensures
            final(self).direction == spec_normalize(
                Vec2i {
                    x: (if is_left {
                        abs_i64(old(self).direction.x as int)
                    } else {
                        -abs_i64(old(self).direction.x as int)
                    }) as i64,
                    y: (2 * random_milli - 1000) as i64,
                },
            ),
            final(self).speed == spec_bounce_speed(old(self).speed as int),
            final(self).stopped == old(self).stopped,
            final(self).wf(),
    {
        let ax: i64 = if self.direction.x >= 0 {
            self.direction.x
        } else {
            -self.direction.x
        };
        let vx: i64 = if is_left {
            ax
        } else {
            -ax
        };
        let vy: i64 = 2 * random_milli - 1000;
        self.direction = normalize_milli(Vec2i { x: vx, y: vy });

        let tenth: i64 = ((self.speed as u64) / 10) as i64;
        if self.speed + tenth <= BALL_SPEED_CAP {
            self.speed = self.speed + tenth;
        } else {
            self.speed = BALL_SPEED_CAP;
        }
    }

    /// A peer declared the game over: freeze the ball.
    pub fn stop(&mut self)
        ensures
            final(self).stopped,
            final(self).direction == old(self).direction,
            final(self).speed == old(self).speed,
    {
        self.stopped = true;
    }

    /// A point was scored (a remote call made on both peers): the ball
    /// returns to the screen's center and sets off at the default speed
    /// toward the side that conceded.
    pub fn reset_ball(&mut self, for_left: bool, screen: Vec2i) -> (position: Vec2i)
        requires
            0 <= screen.x <= COORD_BOUND,
            0 <= screen.y <= COORD_BOUND,
        ensures
            position.x == screen.x / 2,
            position.y == screen.y / 2,
            final(self).direction == if for_left {
                Vec2i { x: -1000i64, y: 0 }
            } else {
                Vec2i { x: 1000i64, y: 0 }
            },
            final(self).speed == DEFAULT_SPEED,
            final(self).stopped == old(self).stopped,
            final(self).wf(),
    {
        let position = Vec2i {
            x: ((screen.x as u64) / 2) as i64,
            y: ((screen.y as u64) / 2) as i64,
        };
        if for_left {
            self.direction = Vec2i { x: -1000i64, y: 0 };
        } else {
            self.direction = Vec2i { x: 1000i64, y: 0 };
        }
        self.speed = DEFAULT_SPEED;
        position
    }
}

/// The absolute value, for stating the bounce's contract.
pub open spec fn abs_i64(x: int) -> int {
    if x >= 0 {
        x
    } else {
        -x
    }
}

/// One axis of the ball's frame translation.
fn ball_axis(c: i64, speed: i64, delta_us: i64) -> (r: i64)
    requires
        -2000 <= c <= 2000,
        0 <= speed <= BALL_SPEED_CAP,
        0 <= delta_us <= DELTA_CAP,
    ensures
        r as int == spec_ball_axis(c as int, speed as int, delta_us as int),
        -400_000_000 <= r <= 400_000_000,
{
    proof {
        let ca = if c >= 0 {
            c as int
        } else {
            -(c as int)
        };
        let s = speed as int;
        let d = delta_us as int;
        assert(0 <= ca * s <= 2000 * (BALL_SPEED_CAP as int)) by (nonlinear_arith)
            requires
                0 <= ca <= 2000,
                0 <= s <= BALL_SPEED_CAP,
        ;
        assert(0 <= ca * s * d <= 2000 * (BALL_SPEED_CAP as int) * (DELTA_CAP as int))
            by (nonlinear_arith)
            requires
                0 <= ca * s <= 2000 * (BALL_SPEED_CAP as int),
                0 <= d <= DELTA_CAP,
        ;
        assert(0 <= ca * s * d / 1_000_000_000 <= 400_000_000) by (nonlinear_arith)
            requires
                0 <= ca * s * d <= 2000 * (BALL_SPEED_CAP as int) * (DELTA_CAP as int),
        ;
    }
    let ca: u64 = if c >= 0 {
        c as u64
    } else {
        (-c) as u64
    };
    let mag = ((ca * (speed as u64)) * (delta_us as u64)) / 1_000_000_000;
    if c >= 0 {
        mag as i64
    } else {
        -(mag as i64)
    }
}

} // verus!
