//! The main scene: it owns the score, the three timers and the music, and
//! it spawns a creep with random course and speed whenever the mob timer
//! fires.

use crate::digits::spec_dec;
use crate::dodge::hud::Hud;
use crate::dodge::mob::Mob;
use crate::dodge::player::Player;
use crate::geom::Vec2i;
use crate::rng::draw_i64;
use vstd::prelude::*;

verus! {

/// A quarter turn, in thousandths of a radian.
pub const HALF_PI_MRAD: i64 = 1571;

/// An eighth of a turn, in thousandths of a radian: the creeps' course
/// deviates from the spawn path's normal by at most this much.
pub const QUARTER_PI_MRAD: i64 = 785;

/// Everything chosen at random for one creep: where on the spawn path it
/// appears, how far its course deviates, and how fast it flies.
#[derive(Clone, Copy, PartialEq, Eq, Structural, Debug)]
pub struct MobSpawn {
    pub path_progress: u32,
    pub angle_offset_mrad: i64,
    pub speed: i64,
}

/// The main scene's own state; the engine owns the nodes it drives.
#[derive(Clone, Copy, PartialEq, Eq, Structural, Debug)]
pub struct Main {
    pub score: i64,
    pub start_timer_running: bool,
    pub score_timer_running: bool,
    pub mob_timer_running: bool,
    pub music_playing: bool,
    pub death_sound_playing: bool,
}

impl Main {
    /// A fresh scene: no score, nothing running.
    pub fn init() -> (m: Main)
        ensures
            m.score == 0,
            !m.start_timer_running,
            !m.score_timer_running,
            !m.mob_timer_running,
            !m.music_playing,
            !m.death_sound_playing,
    {
        Main {
            score: 0,
            start_timer_running: false,
            score_timer_running: false,
            mob_timer_running: false,
            music_playing: false,
            death_sound_playing: false,
        }
    }

    /// The player was hit: stop spawning and scoring, announce the end on
    /// the HUD, and swap the music for the death sound.
    pub fn game_over(&mut self, hud: &mut Hud)
        ensures
            !final(self).score_timer_running,
            !final(self).mob_timer_running,
            final(self).score == old(self).score,
            final(self).start_timer_running == old(self).start_timer_running,
            !final(self).music_playing,
            final(self).death_sound_playing,
            final(hud).message_text@ == "Game Over"@,
            final(hud).message_visible,
            final(hud).score_text@ == old(hud).score_text@,
    {
        self.score_timer_running = false;
        self.mob_timer_running = false;
        hud.show_game_over();
        self.music_playing = false;
        self.death_sound_playing = true;
    }

    /// A new game: reset the score, place the player, arm the start
    /// timer, and greet on the HUD.
    pub fn new_game(&mut self, hud: &mut Hud, player: &mut Player, start_position: Vec2i)
        requires
            old(player).wf(),
            start_position.in_bounds(),
        ensures
            final(self).score == 0,
            final(self).start_timer_running,
            final(self).score_timer_running == old(self).score_timer_running,
            final(self).mob_timer_running == old(self).mob_timer_running,
            final(self).music_playing,
            final(self).death_sound_playing == old(self).death_sound_playing,
            final(player).position == start_position,
            final(player).visible,
            final(player).collision_enabled,
            final(player).wf(),
            final(hud).score_text@ == spec_dec(0),
            final(hud).message_text@ == "Get Ready"@,
            final(hud).message_visible,
    {
        self.score = 0;
        player.start(start_position);
        self.start_timer_running = true;
        hud.update_score(self.score);
        hud.show_message(String::from_str("Get Ready"));
        self.music_playing = true;
    }

    /// The start timer elapsed: begin spawning creeps and counting score.
    pub fn on_start_timer_timeout(&mut self)
        ensures
            !final(self).start_timer_running,
            final(self).score_timer_running,
            final(self).mob_timer_running,
            final(self).score == old(self).score,
            final(self).music_playing == old(self).music_playing,
            final(self).death_sound_playing == old(self).death_sound_playing,
    {
        self.start_timer_running = false;
        self.mob_timer_running = true;
        self.score_timer_running = true;
    }

    /// A second survived: one more point, shown at once on the HUD.
    pub fn on_score_timer_timeout(&mut self, hud: &mut Hud)
        requires
            old(self).score < i64::MAX,
        ensures
            final(self).score == old(self).score + 1,
            final(hud).score_text@ == spec_dec(old(self).score + 1),
            final(self).start_timer_running == old(self).start_timer_running,
            final(self).score_timer_running == old(self).score_timer_running,
            final(self).mob_timer_running == old(self).mob_timer_running,
            final(self).music_playing == old(self).music_playing,
            final(self).death_sound_playing == old(self).death_sound_playing,
    {
        self.score = self.score + 1;
        hud.update_score(self.score);
    }

    /// The mob timer elapsed: draw a creep's spawn point on the path, a
    /// course deviation within an eighth of a turn either way, and a
    /// speed within the creep's range.
    pub fn on_mob_timer_timeout(&self, mob: &Mob) -> (spawn: MobSpawn)
        requires
            0 <= mob.min_speed < mob.max_speed,
        ensures
            -QUARTER_PI_MRAD <= spawn.angle_offset_mrad <= QUARTER_PI_MRAD,
            mob.min_speed <= spawn.speed < mob.max_speed,
    {
        let progress = draw_i64(0, 0xffff_ffff);
        let angle_offset_mrad = draw_i64(-QUARTER_PI_MRAD, QUARTER_PI_MRAD + 1);
        let speed = draw_i64(mob.min_speed, mob.max_speed);
        MobSpawn { path_progress: progress as u32, angle_offset_mrad, speed }
    }
}

/// The course a spawned creep takes: the spawn path's rotation, turned a
/// quarter turn inward, plus the drawn deviation.
pub fn mob_direction(path_rotation_mrad: i64, angle_offset_mrad: i64) -> (dir: i64)
    requires
        -100_000 <= path_rotation_mrad <= 100_000,
        -QUARTER_PI_MRAD <= angle_offset_mrad <= QUARTER_PI_MRAD,
    ensures
        dir == path_rotation_mrad + HALF_PI_MRAD + angle_offset_mrad,
{
    path_rotation_mrad + HALF_PI_MRAD + angle_offset_mrad
}

} // verus!
