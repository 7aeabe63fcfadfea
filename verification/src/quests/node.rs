//! A quest of any kind, which is what a combinator holds.

use crate::blocks::BlockView;
use crate::quests::combinators::quest_majority::QuestMajority;
use crate::quests::combinators::quest_repeat::QuestRepeat;
use crate::quests::combinators::quest_then::QuestThen;
use crate::quests::model::QuestModel;
use crate::quests::walk_quest::WalkQuest;
use crate::quests::walk_repeat_quest::WalkRepeatQuest;
use crate::quests::Event;
use crate::quests::Quest;
use crate::quests::QuestStatus;
use vstd::prelude::*;

verus! {

/// Any one of the quests: a primitive, or a combinator with the quests it
/// owns.
#[derive(Debug)]
pub enum QuestNode {
    Walk(WalkQuest),
    WalkRepeat(WalkRepeatQuest),
    Then(QuestThen),
    Repeat(QuestRepeat),
    Majority(QuestMajority),
}

impl View for QuestNode {
    type V = QuestModel;

    open spec fn view(&self) -> QuestModel {
        self.model()
    }
}

impl QuestNode {
    /// The quest as a tree of goals.
    pub open spec fn model(&self) -> QuestModel
        decreases self,
    {
        match self {
            QuestNode::Walk(quest) => quest.model(),
            QuestNode::WalkRepeat(quest) => quest.model(),
            QuestNode::Then(quest) => quest.model(),
            QuestNode::Repeat(quest) => quest.model(),
            QuestNode::Majority(quest) => quest.model(),
        }
    }

    /// The status of the quest as it stands.
    pub fn status(&self) -> (status: QuestStatus)
        ensures
            status == self@.status(),
    {
        match self {
            QuestNode::Walk(quest) => quest.status(),
            QuestNode::WalkRepeat(quest) => quest.status(),
            QuestNode::Then(quest) => quest.status(),
            QuestNode::Repeat(quest) => quest.status(),
            QuestNode::Majority(quest) => quest.status(),
        }
    }

    /// Takes note of `event`, here and in the quests below as far as their
    /// combinators hand it on, and reports the status that results.
    pub fn register_event(&mut self, event: &Event) -> (status: QuestStatus)
        ensures
            final(self)@ == old(self)@.step(event@),
            status == final(self)@.status(),
            old(self)@.status() is Complete ==> status is Complete,
        decreases *old(self),
    {
        match self {
            QuestNode::Walk(quest) => quest.register_event(event),
            QuestNode::WalkRepeat(quest) => quest.register_event(event),
            QuestNode::Then(quest) => quest.register_event(event),
            QuestNode::Repeat(quest) => quest.register_event(event),
            QuestNode::Majority(quest) => quest.register_event(event),
        }
    }

    /// The report on the quest and on every quest below it.
    pub fn render(&self) -> (text: String)
        ensures
            text@ == self@.text(),
        decreases self,
    {
        match self {
            QuestNode::Walk(quest) => quest.render(),
            QuestNode::WalkRepeat(quest) => quest.render(),
            QuestNode::Then(quest) => quest.render(),
            QuestNode::Repeat(quest) => quest.render(),
            QuestNode::Majority(quest) => quest.render(),
        }
    }

    /// Starts the quest afresh, and every quest below it.
    pub fn reset(&mut self)
        ensures
            final(self)@ == old(self)@.reset(),
        decreases *old(self),
    {
        match self {
            QuestNode::Walk(quest) => quest.reset(),
            QuestNode::WalkRepeat(quest) => quest.reset(),
            QuestNode::Then(quest) => quest.reset(),
            QuestNode::Repeat(quest) => quest.reset(),
            QuestNode::Majority(quest) => quest.reset(),
        }
    }
}

impl Quest<Event> for QuestNode {
    open spec fn block_of(event: &Event) -> Option<BlockView> {
        event@
    }

    fn register_event(&mut self, event: &Event) -> (status: QuestStatus) {
        QuestNode::register_event(self, event)
    }

    fn reset(&mut self) {
        QuestNode::reset(self)
    }

    fn render(&self) -> (text: String) {
        QuestNode::render(self)
    }
}

} // verus!
