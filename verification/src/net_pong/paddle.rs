//! A paddle: its owner moves it with the vertical input axis and streams
//! position and motion to the other peer; the mirror applies what
//! arrives.  Only the paddle's owner triggers a bounce when the ball
//! touches it.

use crate::geom::{clamp_i64, scale_velocity, spec_clamp, spec_scale, Vec2i, COORD_BOUND};
use vstd::prelude::*;

verus! {

/// How fast a paddle moves at full input, in engine units per second
/// (the input axis is in thousandths, so the product is in thousandths
/// per second).
pub const MOTION_SPEED: i64 = 150;

/// A paddle keeps off the very top and bottom of the screen by this
/// margin, in thousandths.
pub const PADDLE_MARGIN: i64 = 16_000;

/// Upper bound on a frame duration, in microseconds.
pub const DELTA_CAP: i64 = 10_000_000;

/// What the owner broadcasts every frame: where the paddle is and how it
/// is moving, so the other peer can mirror it.
#[derive(Clone, Copy, PartialEq, Eq, Structural, Debug)]
pub struct PaddleSync {
    pub position: Vec2i,
    pub motion: i64,
}

/// One frame's outcome: where the paddle ends up, and what to broadcast.
#[derive(Clone, Copy, PartialEq, Eq, Structural, Debug)]
pub struct PaddleFrame {
    pub position: Vec2i,
    pub sync: Option<PaddleSync>,
}

/// A paddle: which side it defends, its current vertical motion
/// (thousandths per second), and whether its "you" hint is gone.
#[derive(Clone, Copy, PartialEq, Eq, Structural, Debug)]
pub struct Paddle {
    pub left: bool,
    pub motion: i64,
    pub you_hidden: bool,
}

impl Paddle {
    /// Motion stays small enough for the frame arithmetic.
    pub open spec fn wf(self) -> bool {
        -2_000_000_000 <= self.motion <= 2_000_000_000
    }

    /// A fresh paddle, standing still.
    pub fn init(left: bool) -> (p: Paddle)
        ensures
            p.left == left,
            p.motion == 0,
            !p.you_hidden,
            p.wf(),
    {
        Paddle { left, motion: 0, you_hidden: false }
    }

    /// One frame.  The owner reads the input axis, hides its "you" hint
    /// once it moves, and broadcasts position and motion; the mirror
    /// hides the hint at once and keeps the motion it was last sent.
    /// Either way the paddle then moves by its motion and is kept inside
    /// the screen's margins.
    pub fn process(
        &mut self,
        position: Vec2i,
        is_authority: bool,
        axis_milli: i64,
        delta_us: i64,
        screen_y: i64,
    ) -> (out: PaddleFrame)
        requires
            old(self).wf(),
            position.in_bounds(),
            -1000 <= axis_milli <= 1000,
            0 <= delta_us <= DELTA_CAP,
            2 * PADDLE_MARGIN <= screen_y <= COORD_BOUND,
        ensures
            final(self).motion == if is_authority {
                axis_milli * MOTION_SPEED
            } else {
                old(self).motion as int
            },
            final(self).you_hidden == if is_authority {
                old(self).you_hidden || axis_milli != 0
            } else {
                true
            },
            final(self).left == old(self).left,
            final(self).wf(),
            out.sync == if is_authority {
                Option::Some(PaddleSync { position, motion: final(self).motion })
            } else {
                Option::None::<PaddleSync>
            },
            out.position.x == position.x,
            out.position.y == spec_clamp(
                position.y + spec_scale(final(self).motion as int, delta_us as int),
                PADDLE_MARGIN as int,
                screen_y - PADDLE_MARGIN,
            ),
    {
        let sync: Option<PaddleSync>;
        if is_authority {
            if !self.you_hidden && axis_milli != 0 {
                self.you_hidden = true;
            }
            self.motion = axis_milli * MOTION_SPEED;
            sync = Some(PaddleSync { position, motion: self.motion });
        } else {
            if !self.you_hidden {
                self.you_hidden = true;
            }
            sync = None;
        }

        let dy = scale_velocity(self.motion, delta_us);
        let y = clamp_i64(position.y + dy, PADDLE_MARGIN, screen_y - PADDLE_MARGIN);
        PaddleFrame { position: Vec2i { x: position.x, y }, sync }
    }

    /// The owner's broadcast arrived: take over its position and motion.
    pub fn set_pos_and_motion(&mut self, pos: Vec2i, motion: i64) -> (position: Vec2i)
        requires
            -2_000_000_000 <= motion <= 2_000_000_000,
        ensures
            position == pos,
            final(self).motion == motion,
            final(self).left == old(self).left,
            final(self).you_hidden == old(self).you_hidden,
            final(self).wf(),
    {
        self.motion = motion;
        pos
    }

    /// The ball entered the paddle's area: only the owner answers, and it
    /// names its own side for the bounce.
    pub fn on_area_entered(&self, is_authority: bool) -> (bounce_side: Option<bool>)
        ensures
            bounce_side == if is_authority {
                Option::Some(self.left)
            } else {
                Option::None::<bool>
            },
    {
        if is_authority {
            Some(self.left)
        } else {
            None
        }
    }
}

} // verus!
