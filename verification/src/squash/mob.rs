//! A creep: spawned on the path around the arena, aimed at the player
//! with a random swerve and a random speed, and squashed when the player
//! lands on it.

use crate::rng::draw_i64;
use vstd::prelude::*;

verus! {

/// An eighth of a turn, in thousandths of a radian: a creep's course
/// swerves from the player by at most this much either way.
pub const QUARTER_PI_MRAD: i64 = 785;

/// Lower bound of the random animation speed, in thousandths.
pub const ANIM_SPEED_MIN_MILLI: i64 = 1000;

/// Upper bound (exclusive) of the random animation speed, in
/// thousandths.
pub const ANIM_SPEED_MAX_MILLI: i64 = 6000;

/// Everything drawn for one creep: how far its course swerves off the
/// player, how fast it walks, and how fast its animation plays.
#[derive(Clone, Copy, PartialEq, Eq, Structural, Debug)]
pub struct MobInit {
    pub angle_offset_mrad: i64,
    pub speed: i64,
    pub anim_speed_milli: i64,
}

/// A creep: its exported speed range, and whether it has been squashed
/// (a squashed creep raises `squashed` and leaves the scene).
#[derive(Clone, Copy, PartialEq, Eq, Structural, Debug)]
pub struct Mob {
    pub min_speed: i64,
    pub max_speed: i64,
    pub squashed: bool,
}

impl Mob {
    /// A fresh creep; the scene then writes its exported speed range.
    pub fn init() -> (m: Mob)
        ensures
            m.min_speed == 0,
            m.max_speed == 0,
            !m.squashed,
    {
        Mob { min_speed: 0, max_speed: 0, squashed: false }
    }

    /// Aim the spawned creep: it faces the player, swerves by a random
    /// angle within an eighth of a turn either way, walks at a random
    /// speed within its range, and animates the faster the more it
    /// hurries.  The speed range must be non-empty, or the draw has
    /// nothing to pick.
    pub fn initialize(&self) -> (init: MobInit)
        requires
            0 <= self.min_speed < self.max_speed,
        ensures
            -QUARTER_PI_MRAD <= init.angle_offset_mrad <= QUARTER_PI_MRAD,
            self.min_speed <= init.speed < self.max_speed,
            ANIM_SPEED_MIN_MILLI <= init.anim_speed_milli < ANIM_SPEED_MAX_MILLI,
    {
        let angle_offset_mrad = draw_i64(-QUARTER_PI_MRAD, QUARTER_PI_MRAD + 1);
        let speed = draw_i64(self.min_speed, self.max_speed);
        let anim_speed_milli = draw_i64(ANIM_SPEED_MIN_MILLI, ANIM_SPEED_MAX_MILLI);
        MobInit { angle_offset_mrad, speed, anim_speed_milli }
    }

    /// The player landed on this creep: it is squashed.
    pub fn squash(&mut self)
        ensures
            final(self).squashed,
            final(self).min_speed == old(self).min_speed,
            final(self).max_speed == old(self).max_speed,
    {
        self.squashed = true;
    }
}

} // verus!
