//! The main scene: it spawns creeps at random spots on the spawn path
//! while the player lives, and offers the retry screen once the player
//! is hit.

use crate::rng::draw_i64;
use vstd::prelude::*;

verus! {

/// The scene's own state: whether creeps still spawn, and whether the
/// retry screen shows.
#[derive(Clone, Copy, PartialEq, Eq, Structural, Debug)]
pub struct MainScene {
    pub mob_timer_running: bool,
    pub retry_visible: bool,
}

impl MainScene {
    /// The scene as loaded, before `ready` runs.
    pub fn init() -> (m: MainScene)
        ensures
            m.mob_timer_running,
            m.retry_visible,
    {
        MainScene { mob_timer_running: true, retry_visible: true }
    }

    /// Entering the tree: the retry screen hides until it is needed.
    pub fn ready(&mut self)
        ensures
            !final(self).retry_visible,
            final(self).mob_timer_running == old(self).mob_timer_running,
    {
        self.retry_visible = false;
    }

    /// A key was pressed: the game restarts only when it is the accept
    /// action and the retry screen is up.
    pub fn unhandled_input(&self, ui_accept_pressed: bool) -> (restart: bool)
        ensures
            restart == (ui_accept_pressed && self.retry_visible),
    {
        ui_accept_pressed && self.retry_visible
    }

    /// The mob timer elapsed: pick where on the spawn path the next
    /// creep appears, as a fraction of the path in thousandths.
    pub fn on_mob_timer_timeout(&self) -> (progress_ratio_milli: i64)
        ensures
            0 <= progress_ratio_milli <= 1000,
    {
        draw_i64(0, 1001)
    }

    /// The player was hit: stop spawning and offer a retry.
    pub fn on_player_hit(&mut self)
        ensures
            !final(self).mob_timer_running,
            final(self).retry_visible,
    {
        self.mob_timer_running = false;
        self.retry_visible = true;
    }
}

} // verus!
