//! The repeat quest: one quest, to be completed a number of times.

use crate::blocks::BlockView;
use crate::quests::model::counted;
use crate::quests::model::QuestModel;
use crate::quests::node::QuestNode;
use crate::quests::tally::Tally;
use crate::quests::Event;
use crate::quests::Quest;
use crate::quests::QuestStatus;
use crate::text::push_decimal;
use crate::text::push_indented;
use vstd::prelude::*;

verus! {

/// A quest that is complete once its quest has been completed a given
/// number of times.
#[derive(Debug)]
pub struct QuestRepeat {
    /// The quest to repeat.
    q: Box<QuestNode>,
    /// The completions so far, towards the number asked for.
    completions: Tally,
}

impl View for QuestRepeat {
    type V = QuestModel;

    open spec fn view(&self) -> QuestModel {
        self.model()
    }
}

impl QuestRepeat {
    /// The quest as a tree of goals.
    pub closed spec fn model(&self) -> QuestModel
        decreases self,
    {
        QuestModel::Repeat {
            child: Box::new(self.q.model()),
            needed: self.completions@.needed,
            completed: self.completions@.count,
            status: self.completions@.status,
        }
    }

    /// The quest to complete `q` `target_count` times. With a count of zero
    /// it is complete from the start.
    pub fn new(q: Box<QuestNode>, target_count: u32) -> (quest: QuestRepeat)
        ensures
            quest@ == (QuestModel::Repeat {
                child: Box::new(q@),
                needed: target_count as nat,
                completed: 0,
                status: counted(0, target_count as nat),
            }),
            quest@.status() is Complete <==> target_count == 0,
            q@.wf() ==> quest@.wf(),
            q@.fresh() ==> quest@.fresh(),
    {
        QuestRepeat { q, completions: Tally::new(target_count) }
    }

    /// The status of the quest as it stands.
    pub fn status(&self) -> (status: QuestStatus)
        ensures
            status == self@.status(),
    {
        self.completions.status()
    }

    /// Hands `event` to the quest, unless this one is complete already, and
    /// reports the status that results. Each time the quest completes short
    /// of the last, it is started afresh.
    pub fn register_event(&mut self, event: &Event) -> (status: QuestStatus)
        ensures
            final(self)@ == old(self)@.step(event@),
            status == final(self)@.status(),
            old(self)@.status() is Complete ==> status is Complete,
        decreases *old(self),
    {
        if self.completions.status() != QuestStatus::Complete {
            if self.q.register_event(event) == QuestStatus::Complete {
                self.completions.advance();
                if self.completions.status() != QuestStatus::Complete {
                    self.q.reset();
                }
            }
        }
        self.completions.status()
    }

    /// The report on the quest: how many completions are still missing, with
    /// the report on its quest under it.
    pub fn render(&self) -> (text: String)
        ensures
            text@ == self@.text(),
        decreases self,
    {
        let mut text = self.completions.status().marker();
        text.append("Repeat ");
        push_decimal(&mut text, self.completions.remaining());
        text.append(" times:");
        text.append("\n\t");
        push_indented(&mut text, self.q.render().as_str());
        text
    }

    /// Starts the quest afresh, and the quest it repeats.
    pub fn reset(&mut self)
        ensures
            final(self)@ == old(self)@.reset(),
        decreases *old(self),
    {
        self.q.reset();
        self.completions.restart();
    }
}

impl Quest<Event> for QuestRepeat {
    open spec fn block_of(event: &Event) -> Option<BlockView> {
        event@
    }

    fn register_event(&mut self, event: &Event) -> (status: QuestStatus) {
        QuestRepeat::register_event(self, event)
    }

    fn reset(&mut self) {
        QuestRepeat::reset(self)
    }

    fn render(&self) -> (text: String) {
        QuestRepeat::render(self)
    }
}

} // verus!
