//! The majority quest: three quests, two of them to be completed.

use crate::blocks::BlockView;
use crate::quests::model::QuestModel;
use crate::quests::node::QuestNode;
use crate::quests::Event;
use crate::quests::Quest;
use crate::quests::QuestStatus;
use crate::text::push_indented;
use vstd::prelude::*;

verus! {

/// A quest that is complete once two of its three quests have been.
#[derive(Debug)]
pub struct QuestMajority {
    /// The first quest.
    q1: Box<QuestNode>,
    /// The second quest.
    q2: Box<QuestNode>,
    /// The third quest.
    q3: Box<QuestNode>,
    /// Whether the first quest has reported completion.
    q1_complete: bool,
    /// Whether the second quest has reported completion.
    q2_complete: bool,
    /// Whether the third quest has reported completion.
    q3_complete: bool,
    /// Whether two of them have.
    status: QuestStatus,
}

impl View for QuestMajority {
    type V = QuestModel;

    open spec fn view(&self) -> QuestModel {
        self.model()
    }
}

impl QuestMajority {
    /// The quest as a tree of goals.
    pub closed spec fn model(&self) -> QuestModel
        decreases self,
    {
        QuestModel::Majority {
            first: Box::new(self.q1.model()),
            second: Box::new(self.q2.model()),
            third: Box::new(self.q3.model()),
            first_done: self.q1_complete,
            second_done: self.q2_complete,
            third_done: self.q3_complete,
            status: self.status,
        }
    }

    /// The quest to complete two of `q1`, `q2` and `q3`. It starts ongoing
    /// with none of the three counted, whatever state they are in.
    pub fn new(q1: Box<QuestNode>, q2: Box<QuestNode>, q3: Box<QuestNode>) -> (quest: QuestMajority)
        ensures
            quest@ == (QuestModel::Majority {
                first: Box::new(q1@),
                second: Box::new(q2@),
                third: Box::new(q3@),
                first_done: false,
                second_done: false,
                third_done: false,
                status: QuestStatus::Ongoing,
            }),
            q1@.wf() && q2@.wf() && q3@.wf() ==> quest@.wf(),
            q1@.fresh() && q2@.fresh() && q3@.fresh() ==> quest@.fresh(),
    {
        QuestMajority {
            q1,
            q2,
            q3,
            q1_complete: false,
            q2_complete: false,
            q3_complete: false,
            status: QuestStatus::Ongoing,
        }
    }

    /// The status of the quest as it stands.
    pub fn status(&self) -> (status: QuestStatus)
        ensures
            status == self@.status(),
    {
        self.status
    }

    /// Hands `event` to each quest that has not reported completion yet,
    /// counts those that do so now, and reports the status that results.
    pub fn register_event(&mut self, event: &Event) -> (status: QuestStatus)
        ensures
            final(self)@ == old(self)@.step(event@),
            status == final(self)@.status(),
            old(self)@.status() is Complete ==> status is Complete,
        decreases *old(self),
    {
        if !self.q1_complete && self.q1.register_event(event) == QuestStatus::Complete {
            self.q1_complete = true;
        }
        if !self.q2_complete && self.q2.register_event(event) == QuestStatus::Complete {
            self.q2_complete = true;
        }
        if !self.q3_complete && self.q3.register_event(event) == QuestStatus::Complete {
            self.q3_complete = true;
        }
        let completed_count: u8 = (if self.q1_complete { 1u8 } else { 0u8 })
            + (if self.q2_complete { 1u8 } else { 0u8 })
            + (if self.q3_complete { 1u8 } else { 0u8 });
        if completed_count >= 2 {
            self.status = QuestStatus::Complete;
        }
        self.status
    }

    /// The report on the quest, with those on its three quests under it.
    pub fn render(&self) -> (text: String)
        ensures
            text@ == self@.text(),
        decreases self,
    {
        let mut text = self.status.marker();
        text.append("You must complete at least 2 of these quests:");
        text.append("\n\t");
        push_indented(&mut text, self.q1.render().as_str());
        text.append("\n\t");
        push_indented(&mut text, self.q2.render().as_str());
        text.append("\n\t");
        push_indented(&mut text, self.q3.render().as_str());
        text
    }

    /// Starts the quest afresh, and its three quests.
    pub fn reset(&mut self)
        ensures
            final(self)@ == old(self)@.reset(),
        decreases *old(self),
    {
        self.q1.reset();
        self.q2.reset();
        self.q3.reset();
        self.q1_complete = false;
        self.q2_complete = false;
        self.q3_complete = false;
        self.status = QuestStatus::Ongoing;
    }
}

impl Quest<Event> for QuestMajority {
    open spec fn block_of(event: &Event) -> Option<BlockView> {
        event@
    }

    fn register_event(&mut self, event: &Event) -> (status: QuestStatus) {
        QuestMajority::register_event(self, event)
    }

    fn reset(&mut self) {
        QuestMajority::reset(self)
    }

    fn render(&self) -> (text: String) {
        QuestMajority::render(self)
    }
}

} // verus!
