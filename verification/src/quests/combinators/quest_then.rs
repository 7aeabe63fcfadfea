//! The then quest: two quests, both to be completed.
//!
//! Every event goes to both quests, whatever the state of the other. The
//! then quest is complete from the first event on after which both are.

use crate::blocks::BlockView;
use crate::quests::model::QuestModel;
use crate::quests::node::QuestNode;
use crate::quests::Event;
use crate::quests::Quest;
use crate::quests::QuestStatus;
use crate::text::push_indented;
use vstd::prelude::*;

verus! {

/// A quest that is complete once both of its quests are.
#[derive(Debug)]
pub struct QuestThen {
    /// The first quest.
    q1: Box<QuestNode>,
    /// The second quest.
    q2: Box<QuestNode>,
    /// Whether both have been found complete after one event.
    status: QuestStatus,
}

impl View for QuestThen {
    type V = QuestModel;

    open spec fn view(&self) -> QuestModel {
        self.model()
    }
}

impl QuestThen {
    /// The quest as a tree of goals.
    pub closed spec fn model(&self) -> QuestModel
        decreases self,
    {
        QuestModel::Then { first: Box::new(self.q1.model()), second: Box::new(self.q2.model()), status: self.status }
    }

    /// The quest to complete `q1` and `q2`. It starts ongoing, whatever
    /// state the two are in.
    pub fn new(q1: Box<QuestNode>, q2: Box<QuestNode>) -> (quest: QuestThen)
        ensures
            quest@ == (QuestModel::Then {
                first: Box::new(q1@),
                second: Box::new(q2@),
                status: QuestStatus::Ongoing,
            }),
            q1@.wf() && q2@.wf() ==> quest@.wf(),
            q1@.fresh() && q2@.fresh() ==> quest@.fresh(),
    {
        QuestThen { q1, q2, status: QuestStatus::Ongoing }
    }

    /// The status of the quest as it stands.
    pub fn status(&self) -> (status: QuestStatus)
        ensures
            status == self@.status(),
    {
        self.status
    }

    /// Hands `event` to both quests and reports the status that results.
    pub fn register_event(&mut self, event: &Event) -> (status: QuestStatus)
        ensures
            final(self)@ == old(self)@.step(event@),
            status == final(self)@.status(),
            old(self)@.status() is Complete ==> status is Complete,
        decreases *old(self),
    {
        let first = self.q1.register_event(event);
        let second = self.q2.register_event(event);
        if first == QuestStatus::Complete && second == QuestStatus::Complete {
            self.status = QuestStatus::Complete;
        }
        self.status
    }

    /// The report on the quest, with those on its two quests under it.
    pub fn render(&self) -> (text: String)
        ensures
            text@ == self@.text(),
        decreases self,
    {
        let mut text = self.status.marker();
        text.append("You must, in order, complete each of these quests:");
        text.append("\n\t");
        push_indented(&mut text, self.q1.render().as_str());
        text.append("\n\t");
        push_indented(&mut text, self.q2.render().as_str());
        text
    }

    /// Starts the quest afresh, and both of its quests.
    pub fn reset(&mut self)
        ensures
            final(self)@ == old(self)@.reset(),
        decreases *old(self),
    {
        self.q1.reset();
        self.q2.reset();
        self.status = QuestStatus::Ongoing;
    }
}

impl Quest<Event> for QuestThen {
    open spec fn block_of(event: &Event) -> Option<BlockView> {
        event@
    }

    fn register_event(&mut self, event: &Event) -> (status: QuestStatus) {
        QuestThen::register_event(self, event)
    }

    fn reset(&mut self) {
        QuestThen::reset(self)
    }

    fn render(&self) -> (text: String) {
        QuestThen::render(self)
    }
}

} // verus!
