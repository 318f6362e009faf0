//! The score label: one point per squashed mob, always displayed as
//! "Score: " followed by the exact decimal count — so the displayed
//! counter climbs by one with every squash.

use crate::digits::{lemma_udec_injective, spec_udec, u64_to_string};
use vstd::prelude::*;

verus! {

/// The interface's state: the count of squashed mobs and the label's
/// text.
pub struct UserInterface {
    pub score: u32,
    pub label_text: String,
}

impl UserInterface {
    /// The label always spells out the current score.
    pub open spec fn wf(self) -> bool {
        self.label_text@ == "Score: "@ + spec_udec(self.score as int)
    }

    /// A fresh interface: no mobs squashed yet.
    pub fn init() -> (ui: UserInterface)
        ensures
            ui.score == 0,
            ui.wf(),
    {
        let mut label_text = String::from_str("Score: ");
        let digits = u64_to_string(0);
        label_text.append(digits.as_str());
        UserInterface { score: 0, label_text }
    }

    /// The displayed counter tells the exact score: two interfaces that
    /// show the same text hold the same count, so a climbing score is
    /// always seen to climb.
    pub proof fn lemma_display_determines_score(a: UserInterface, b: UserInterface)
        requires
            a.wf(),
            b.wf(),
            a.label_text@ == b.label_text@,
        ensures
            a.score == b.score,
    {
        let p = "Score: "@;
        let u1 = spec_udec(a.score as int);
        let u2 = spec_udec(b.score as int);
        assert(p + u1 == p + u2);
        assert((p + u1).len() == (p + u2).len());
        assert forall|i: int| 0 <= i < u1.len() implies u1[i] == u2[i] by {
            assert((p + u1)[p.len() + i] == u1[i]);
            assert((p + u2)[p.len() + i] == u2[i]);
        }
        assert(u1 =~= u2);
        lemma_udec_injective(a.score as int, b.score as int);
    }

    /// A mob was squashed: the score climbs by exactly one and the
    /// label shows the new count at once.
    pub fn on_mob_squashed(&mut self)
        requires
            old(self).score < u32::MAX,
        ensures
            final(self).score == old(self).score + 1,
            final(self).score > old(self).score,
            final(self).wf(),
            final(self).label_text@ == "Score: "@ + spec_udec(old(self).score + 1),
    {
        self.score = self.score + 1;
        let mut label_text = String::from_str("Score: ");
        let digits = u64_to_string(self.score as u64);
        label_text.append(digits.as_str());
        self.label_text = label_text;
    }
}

} // verus!
