//! A counter that runs up to a fixed number and is complete when it gets
//! there.

use crate::quests::model::counted;
use crate::quests::QuestStatus;
use vstd::prelude::*;

verus! {

/// A count towards `needed`, with the status that follows from it.
#[derive(Debug, Clone, Copy)]
pub struct Tally {
    needed: u32,
    count: u32,
    status: QuestStatus,
}

/// What a [`Tally`] holds.
pub struct TallyView {
    pub needed: nat,
    pub count: nat,
    pub status: QuestStatus,
}

impl View for Tally {
    type V = TallyView;

    closed spec fn view(&self) -> TallyView {
        TallyView { needed: self.needed as nat, count: self.count as nat, status: self.status }
    }
}

impl Tally {
    /// The count never passes `needed`, and the status is complete exactly
    /// when the count has reached it.
    #[verifier::type_invariant]
    closed spec fn settled(self) -> bool {
        &&& self.count <= self.needed
        &&& self.status == counted(self.count as nat, self.needed as nat)
    }

    /// A tally of nothing yet, towards `needed`.
    pub fn new(needed: u32) -> (tally: Tally)
        ensures
            tally@ == (TallyView { needed: needed as nat, count: 0, status: counted(0, needed as nat) }),
    {
        Tally {
            needed,
            count: 0,
            status: if needed == 0 {
                QuestStatus::Complete
            } else {
                QuestStatus::Ongoing
            },
        }
    }

    /// The status, which is complete exactly when the count has reached
    /// what is needed.
    pub fn status(&self) -> (status: QuestStatus)
        ensures
            status == self@.status,
            status == counted(self@.count, self@.needed),
            self@.count <= self@.needed,
    {
        proof {
            use_type_invariant(self);
        }
        self.status
    }

    /// The number that the tally runs up to.
    pub fn needed(&self) -> (needed: u32)
        ensures
            needed == self@.needed,
    {
        self.needed
    }

    /// How much is still missing.
    pub fn remaining(&self) -> (left: u32)
        ensures
            left == self@.needed - self@.count,
    {
        proof {
            use_type_invariant(self);
        }
        self.needed - self.count
    }

    /// Counts one more.
    pub fn advance(&mut self)
        requires
            old(self)@.status is Ongoing,
        ensures
            final(self)@ == (TallyView {
                needed: old(self)@.needed,
                count: old(self)@.count + 1,
                status: counted(old(self)@.count + 1, old(self)@.needed),
            }),
    {
        proof {
            use_type_invariant(&*self);
        }
        let count: u32 = self.count + 1;
        *self = Tally {
            needed: self.needed,
            count,
            status: if count == self.needed {
                QuestStatus::Complete
            } else {
                QuestStatus::Ongoing
            },
        };
    }

    /// Starts counting from nothing again.
    pub fn restart(&mut self)
        ensures
            final(self)@ == (TallyView {
                needed: old(self)@.needed,
                count: 0,
                status: counted(0, old(self)@.needed),
            }),
    {
        *self = Tally::new(self.needed);
    }
}

} // verus!
