//! The walk quest: step onto a block of a given kind, once.

use crate::blocks::Block;
use crate::blocks::BlockView;
use crate::quests::model::QuestModel;
use crate::quests::Event;
use crate::quests::Quest;
use crate::quests::QuestStatus;
use vstd::prelude::*;

verus! {

/// A quest that is complete once its target block has been stepped onto.
#[derive(Debug)]
pub struct WalkQuest {
    /// The block to step onto.
    target_block: Block,
    /// Whether that has happened yet.
    status: QuestStatus,
}

impl View for WalkQuest {
    type V = QuestModel;

    open spec fn view(&self) -> QuestModel {
        self.model()
    }
}

impl WalkQuest {
    /// The quest as a tree of goals.
    pub closed spec fn model(&self) -> QuestModel {
        QuestModel::Walk { target: self.target_block@, status: self.status }
    }

    /// A quest to step onto a block like `target_block`. It starts ongoing.
    pub fn new(target_block: Block) -> (quest: WalkQuest)
        ensures
            quest@ == (QuestModel::Walk { target: target_block@, status: QuestStatus::Ongoing }),
            quest@.wf(),
            quest@.fresh(),
    {
        WalkQuest { target_block, status: QuestStatus::Ongoing }
    }

    /// The status of the quest as it stands.
    pub fn status(&self) -> (status: QuestStatus)
        ensures
            status == self@.status(),
    {
        self.status
    }

    /// Takes note of `event` and reports the status that results: complete
    /// from the first step onto the target on.
    pub fn register_event(&mut self, event: &Event) -> (status: QuestStatus)
        ensures
            final(self)@ == old(self)@.step(event@),
            status == final(self)@.status(),
            old(self)@.status() is Complete ==> status is Complete,
    {
        if self.status != QuestStatus::Complete {
            if event.is_on(&self.target_block) {
                self.status = QuestStatus::Complete;
            }
        }
        self.status
    }

    /// The report on the quest.
    pub fn render(&self) -> (text: String)
        ensures
            text@ == self@.text(),
    {
        let mut text = self.status.marker();
        text.append("Walk on a ");
        text.append(self.target_block.describe().as_str());
        text.append(" block");
        text
    }

    /// Starts the quest afresh.
    pub fn reset(&mut self)
        ensures
            final(self)@ == old(self)@.reset(),
    {
        self.status = QuestStatus::Ongoing;
    }
}

impl Quest<Event> for WalkQuest {
    open spec fn block_of(event: &Event) -> Option<BlockView> {
        event@
    }

    fn register_event(&mut self, event: &Event) -> (status: QuestStatus) {
        WalkQuest::register_event(self, event)
    }

    fn reset(&mut self) {
        WalkQuest::reset(self)
    }

    fn render(&self) -> (text: String) {
        WalkQuest::render(self)
    }
}

} // verus!
