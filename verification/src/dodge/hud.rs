//! The heads-up display: a message label with its one-shot timer, a start
//! button, and the score label.  Pressing the start button raises the
//! `start_game` signal, which the main scene answers with a new game.

use crate::digits::{i64_to_string, spec_dec};
use vstd::prelude::*;

verus! {

/// What the HUD shows: the engine mirrors these fields onto its labels
/// and button.
pub struct Hud {
    pub message_text: String,
    pub message_visible: bool,
    pub message_timer_running: bool,
    pub start_button_visible: bool,
    pub score_text: String,
}

impl Hud {
    /// A fresh HUD: nothing shown yet.
    pub fn init() -> (h: Hud)
        ensures
            h.message_text@ == Seq::<char>::empty(),
            !h.message_visible,
            !h.message_timer_running,
            !h.start_button_visible,
            h.score_text@ == Seq::<char>::empty(),
    {
        Hud {
            message_text: String::new(),
            message_visible: false,
            message_timer_running: false,
            start_button_visible: false,
            score_text: String::new(),
        }
    }

    /// Show `text` on the message label and start the timer that will
    /// hide it again.
    pub fn show_message(&mut self, text: String)
        ensures
            final(self).message_text@ == text@,
            final(self).message_visible,
            final(self).message_timer_running,
            final(self).start_button_visible == old(self).start_button_visible,
            final(self).score_text@ == old(self).score_text@,
    {
        self.message_text = text;
        self.message_visible = true;
        self.message_timer_running = true;
    }

    /// The game ended: show "Game Over" (the engine then schedules
    /// `show_start_button` two seconds later).
    pub fn show_game_over(&mut self)
        ensures
            final(self).message_text@ == "Game Over"@,
            final(self).message_visible,
            final(self).message_timer_running,
            final(self).start_button_visible == old(self).start_button_visible,
            final(self).score_text@ == old(self).score_text@,
    {
        self.show_message(String::from_str("Game Over"));
    }

    /// Back to the title: show the game's name and the start button.
    pub fn show_start_button(&mut self)
        ensures
            final(self).message_text@ == "Dodge the\nCreeps!"@,
            final(self).message_visible,
            final(self).start_button_visible,
            final(self).message_timer_running == old(self).message_timer_running,
            final(self).score_text@ == old(self).score_text@,
    {
        self.message_text = String::from_str("Dodge the\nCreeps!");
        self.message_visible = true;
        self.start_button_visible = true;
    }

    /// Show the score in decimal on the score label.
    pub fn update_score(&mut self, score: i64)
        ensures
            final(self).score_text@ == spec_dec(score as int),
            final(self).message_text@ == old(self).message_text@,
            final(self).message_visible == old(self).message_visible,
            final(self).message_timer_running == old(self).message_timer_running,
            final(self).start_button_visible == old(self).start_button_visible,
    {
        self.score_text = i64_to_string(score);
    }

    /// The start button was pressed: hide it and raise `start_game`.
    pub fn on_start_button_pressed(&mut self)
        ensures
            !final(self).start_button_visible,
            final(self).message_text@ == old(self).message_text@,
            final(self).message_visible == old(self).message_visible,
            final(self).message_timer_running == old(self).message_timer_running,
            final(self).score_text@ == old(self).score_text@,
    {
        self.start_button_visible = false;
    }

    /// The message timer elapsed: hide the message label.
    pub fn on_message_timer_timeout(&mut self)
        ensures
            !final(self).message_visible,
            !final(self).message_timer_running,
            final(self).message_text@ == old(self).message_text@,
            final(self).start_button_visible == old(self).start_button_visible,
            final(self).score_text@ == old(self).score_text@,
    {
        self.message_visible = false;
        self.message_timer_running = false;
    }
}

} // verus!
