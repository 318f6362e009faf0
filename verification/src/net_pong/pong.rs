//! The pong arena: it keeps both scores, shows the winner when a side
//! reaches the threshold, and then stops the ball and offers the exit
//! button.

use crate::digits::{i64_to_string, spec_dec};
use vstd::prelude::*;

verus! {

/// First side to reach this many points wins.
pub const SCORE_TO_WIN: i32 = 10;

/// The arena's own state: the two scores.
#[derive(Clone, Copy, PartialEq, Eq, Structural, Debug)]
pub struct Pong {
    pub score_left: i32,
    pub score_right: i32,
}

/// What one scored point changes on screen.
pub struct ScoreUpdate {
    /// Which side's label changed: the left one when true.
    pub left_changed: bool,
    /// The changed label's new text.
    pub score_text: String,
    pub show_winner_left: bool,
    pub show_winner_right: bool,
    /// When the game ended, the exit button appears and every peer is
    /// told to stop the ball.
    pub game_ended: bool,
}

impl Pong {
    /// A fresh arena: no points yet.
    pub fn init() -> (p: Pong)
        ensures
            p.score_left == 0,
            p.score_right == 0,
    {
        Pong { score_left: 0, score_right: 0 }
    }

    /// Who controls the right paddle: the server hands it to its single
    /// connected peer, a client keeps it for itself.
    pub fn player2_authority(is_server: bool, first_peer: i32, own_id: i32) -> (authority: i32)
        ensures
            authority == if is_server {
                first_peer
            } else {
                own_id
            },
    {
        if is_server {
            first_peer
        } else {
            own_id
        }
    }

    /// A point was scored (a remote call, made on every peer): add it to
    /// the named side, refresh that side's label, and when a side has
    /// just reached the threshold, show its winner label and end the
    /// game.
    pub fn update_score(&mut self, add_to_left: bool) -> (out: ScoreUpdate)
        requires
            add_to_left ==> old(self).score_left < i32::MAX,
            !add_to_left ==> old(self).score_right < i32::MAX,
        ensures
            final(self).score_left == old(self).score_left + if add_to_left {
                1int
            } else {
                0int
            },
            final(self).score_right == old(self).score_right + if add_to_left {
                0int
            } else {
                1int
            },
            out.left_changed == add_to_left,
            out.score_text@ == spec_dec(
                if add_to_left {
                    final(self).score_left as int
                } else {
                    final(self).score_right as int
                },
            ),
            out.show_winner_left == (final(self).score_left == SCORE_TO_WIN),
            out.show_winner_right == (final(self).score_left != SCORE_TO_WIN
                && final(self).score_right == SCORE_TO_WIN),
            out.game_ended == (final(self).score_left == SCORE_TO_WIN || final(self).score_right
                == SCORE_TO_WIN),
    {
        let score_text: String;
        if add_to_left {
            self.score_left = self.score_left + 1;
            score_text = i64_to_string(self.score_left as i64);
        } else {
            self.score_right = self.score_right + 1;
            score_text = i64_to_string(self.score_right as i64);
        }

        let show_winner_left = self.score_left == SCORE_TO_WIN;
        let show_winner_right = !show_winner_left && self.score_right == SCORE_TO_WIN;
        let game_ended = show_winner_left || show_winner_right;

        ScoreUpdate {
            left_changed: add_to_left,
            score_text,
            show_winner_left,
            show_winner_right,
            game_ended,
        }
    }
}

} // verus!
