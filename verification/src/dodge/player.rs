//! The player sprite: every frame it reads the four direction actions,
//! moves at a fixed speed (diagonals are normalized), is clamped to the
//! screen, and picks the sprite animation; touching any mob hides it and
//! raises the `hit` signal.

use crate::geom::{clamp_to_rect, spec_clamp_rect, Vec2i, COORD_BOUND};
use vstd::prelude::*;

verus! {

/// The player's speed, in thousandths of a pixel per second.
pub const PLAYER_SPEED: i64 = 400_000;

/// Upper bound on any speed a game object uses, thousandths per second.
pub const SPEED_CAP: i64 = 10_000_000;

/// Upper bound on a frame duration, in microseconds (ten seconds).
pub const DELTA_CAP: i64 = 10_000_000;

/// Thousandths of the unit diagonal component: a normalized `(±1, ±1)`
/// direction moves each axis by this fraction of the speed.
pub const DIAG_MILLI: i64 = 707;

/// The four direction actions, as polled on one frame.
#[derive(Clone, Copy, PartialEq, Eq, Structural, Debug)]
pub struct DirectionInput {
    pub right: bool,
    pub left: bool,
    pub down: bool,
    pub up: bool,
}

/// Which animation the sprite plays after a frame, and how it is flipped.
#[derive(Clone, Copy, PartialEq, Eq, Structural, Debug)]
pub enum SpriteAnimation {
    Right { flip_h: bool },
    Up { flip_v: bool },
    Stopped,
}

/// Horizontal component of the input direction: `right` minus `left`.
pub open spec fn spec_dir_x(input: DirectionInput) -> int {
    (if input.right {
        1int
    } else {
        0int
    }) - (if input.left {
        1int
    } else {
        0int
    })
}

/// Vertical component of the input direction: `down` minus `up`
/// (the vertical axis grows downward on screen).
pub open spec fn spec_dir_y(input: DirectionInput) -> int {
    (if input.down {
        1int
    } else {
        0int
    }) - (if input.up {
        1int
    } else {
        0int
    })
}

/// The animation a moving direction selects: horizontal movement plays
/// `Right` (mirrored when moving left), purely vertical movement plays
/// `Up` (mirrored when moving down), no movement stops the sprite.
pub open spec fn spec_animation(dx: int, dy: int) -> SpriteAnimation {
    if dx == 0 && dy == 0 {
        SpriteAnimation::Stopped
    } else if dx != 0 {
        SpriteAnimation::Right { flip_h: dx < 0 }
    } else {
        SpriteAnimation::Up { flip_v: dy > 0 }
    }
}

/// How far one axis moves in a frame: the speed scaled by the frame time,
/// reduced to the diagonal component when both axes move.
pub open spec fn spec_axis_step(dx: int, dy: int, speed: int, delta_us: int) -> int {
    let step = speed * delta_us / 1_000_000;
    if dx != 0 && dy != 0 {
        step * DIAG_MILLI / 1000
    } else {
        step
    }
}

/// The frame displacement for an input direction.
pub open spec fn spec_displacement(input: DirectionInput, speed: int, delta_us: int) -> Vec2i {
    let dx = spec_dir_x(input);
    let dy = spec_dir_y(input);
    let step = spec_axis_step(dx, dy, speed, delta_us);
    Vec2i { x: (dx * step) as i64, y: (dy * step) as i64 }
}

/// The player: a tunable speed, the screen it is clamped to, and the
/// sprite state the engine mirrors.
pub struct Player {
    pub speed: i64,
    pub screen_size: Vec2i,
    pub position: Vec2i,
    pub visible: bool,
    pub collision_enabled: bool,
}

impl Player {
    /// The state every frame keeps inside: a sane speed and coordinates
    /// small enough for the frame arithmetic.
    pub open spec fn wf(self) -> bool {
        &&& 0 <= self.speed <= SPEED_CAP
        &&& 0 <= self.screen_size.x <= COORD_BOUND
        &&& 0 <= self.screen_size.y <= COORD_BOUND
        &&& self.position.in_bounds()
    }

    /// A fresh player: default speed, no screen known yet.
    pub fn init() -> (p: Player)
        ensures
            p.speed == PLAYER_SPEED,
            p.screen_size == (Vec2i { x: 0, y: 0 }),
            p.position == (Vec2i { x: 0, y: 0 }),
            p.visible,
            p.collision_enabled,
            p.wf(),
    {
        Player {
            speed: PLAYER_SPEED,
            screen_size: Vec2i { x: 0, y: 0 },
            position: Vec2i { x: 0, y: 0 },
            visible: true,
            collision_enabled: true,
        }
    }

    /// Entering the scene: remember the viewport size and hide until the
    /// game starts.
    pub fn ready(&mut self, screen_size: Vec2i)
        requires
            old(self).wf(),
            0 <= screen_size.x <= COORD_BOUND,
            0 <= screen_size.y <= COORD_BOUND,
        ensures
            final(self).screen_size == screen_size,
            !final(self).visible,
            final(self).position == old(self).position,
            final(self).speed == old(self).speed,
            final(self).collision_enabled == old(self).collision_enabled,
            final(self).wf(),
    {
        self.screen_size = screen_size;
        self.visible = false;
    }

    /// A new game starts: appear at `pos` with collisions on.
    pub fn start(&mut self, pos: Vec2i)
        requires
            old(self).wf(),
            pos.in_bounds(),
        ensures
            final(self).position == pos,
            final(self).visible,
            final(self).collision_enabled,
            final(self).speed == old(self).speed,
            final(self).screen_size == old(self).screen_size,
            final(self).wf(),
    {
        self.position = pos;
        self.visible = true;
        self.collision_enabled = true;
    }

    /// A mob touched the player: hide, drop collisions, and let the main
    /// scene know through the `hit` signal.
    pub fn on_player_body_entered(&mut self)
        requires
            old(self).wf(),
        ensures
            !final(self).visible,
            !final(self).collision_enabled,
            final(self).position == old(self).position,
            final(self).speed == old(self).speed,
            final(self).screen_size == old(self).screen_size,
            final(self).wf(),
    {
        self.visible = false;
        self.collision_enabled = false;
    }

    /// One frame: move along the input direction at the player's speed,
    /// clamped to the screen rectangle, and report which animation the
    /// sprite plays.
    pub fn process(&mut self, input: DirectionInput, delta_us: i64) -> (anim: SpriteAnimation)
        requires
            old(self).wf(),
            0 <= delta_us <= DELTA_CAP,
        ensures
            final(self).position == spec_clamp_rect(
                Vec2i {
                    x: (old(self).position.x + spec_displacement(input, old(self).speed as int, delta_us as int).x) as i64,
                    y: (old(self).position.y + spec_displacement(input, old(self).speed as int, delta_us as int).y) as i64,
                },
                old(self).screen_size,
            ),
            anim == spec_animation(spec_dir_x(input), spec_dir_y(input)),
            final(self).speed == old(self).speed,
            final(self).screen_size == old(self).screen_size,
            final(self).visible == old(self).visible,
            final(self).collision_enabled == old(self).collision_enabled,
            final(self).wf(),
    {
        let dx: i64 = (if input.right {
            1i64
        } else {
            0i64
        }) - (if input.left {
            1i64
        } else {
            0i64
        });
        let dy: i64 = (if input.down {
            1i64
        } else {
            0i64
        }) - (if input.up {
            1i64
        } else {
            0i64
        });

        proof {
            let s = old(self).speed as int;
            let d = delta_us as int;
            assert(0 <= s * d <= SPEED_CAP * DELTA_CAP) by (nonlinear_arith)
                requires
                    0 <= s <= SPEED_CAP,
                    0 <= d <= DELTA_CAP,
            ;
            assert(0 <= s * d / 1_000_000 <= SPEED_CAP * DELTA_CAP / 1_000_000) by (nonlinear_arith)
                requires
                    0 <= s * d <= SPEED_CAP * DELTA_CAP,
            ;
        }
        let step_u: u64 = (self.speed as u64) * (delta_us as u64) / 1_000_000;
        let step: i64 = if dx != 0 && dy != 0 {
            ((step_u * (DIAG_MILLI as u64)) / 1000) as i64
        } else {
            step_u as i64
        };
        assert(step == spec_axis_step(dx as int, dy as int, old(self).speed as int, delta_us as int));
        assert(0 <= step <= SPEED_CAP * DELTA_CAP / 1_000_000);

        let cx: i64 = if dx == 0 {
            0
        } else if dx > 0 {
            step
        } else {
            -step
        };
        let cy: i64 = if dy == 0 {
            0
        } else if dy > 0 {
            step
        } else {
            -step
        };
        proof {
            let a = dx as int;
            let b = dy as int;
            let st = step as int;
            assert((a == 0 ==> a * st == 0) && (a == 1 ==> a * st == st) && (a == -1 ==> a * st
                == -st)) by (nonlinear_arith);
            assert((b == 0 ==> b * st == 0) && (b == 1 ==> b * st == st) && (b == -1 ==> b * st
                == -st)) by (nonlinear_arith);
        }
        assert(cx == dx * step && cy == dy * step);

        let moved = Vec2i { x: self.position.x + cx, y: self.position.y + cy };
        self.position = clamp_to_rect(moved, self.screen_size);

        if dx != 0 || dy != 0 {
            if dx != 0 {
                SpriteAnimation::Right { flip_h: dx < 0 }
            } else {
                SpriteAnimation::Up { flip_v: dy > 0 }
            }
        } else {
            SpriteAnimation::Stopped
        }
    }
}

} // verus!
