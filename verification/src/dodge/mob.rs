//! A creep: it flies across the screen with a random speed and plays one
//! of its animations, picked at random; it frees itself once off screen.

use crate::rng::draw_i64;
use vstd::prelude::*;

verus! {

/// Default lower speed bound, thousandths of a pixel per second.
pub const MOB_MIN_SPEED: i64 = 150_000;

/// Default upper speed bound, thousandths of a pixel per second.
pub const MOB_MAX_SPEED: i64 = 250_000;

/// A creep's tunable speed range.
#[derive(Clone, Copy, PartialEq, Eq, Structural, Debug)]
pub struct Mob {
    pub min_speed: i64,
    pub max_speed: i64,
}

impl Mob {
    /// A fresh creep with the default speed range.
    pub fn init() -> (m: Mob)
        ensures
            m.min_speed == MOB_MIN_SPEED,
            m.max_speed == MOB_MAX_SPEED,
            m.min_speed < m.max_speed,
    {
        Mob { min_speed: MOB_MIN_SPEED, max_speed: MOB_MAX_SPEED }
    }

    /// Entering the scene: pick which of the sprite's animations to play.
    /// Whatever is drawn, the pick is a valid index.
    pub fn ready(&self, animation_count: usize) -> (idx: usize)
        requires
            0 < animation_count,
            animation_count <= 0x7fff_ffff,
        ensures
            idx < animation_count,
    {
        let picked = draw_i64(0, animation_count as i64);
        picked as usize
    }
}

} // verus!
