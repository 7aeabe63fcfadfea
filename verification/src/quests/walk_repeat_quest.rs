//! The walk repeat quest: step onto blocks of a given kind a number of times
//! in a row. Any other event in between starts the count again.

use crate::blocks::Block;
use crate::blocks::BlockView;
use crate::quests::model::counted;
use crate::quests::model::QuestModel;
use crate::quests::tally::Tally;
use crate::quests::Event;
use crate::quests::Quest;
use crate::quests::QuestStatus;
use crate::text::push_decimal;
use vstd::prelude::*;

verus! {

/// A quest that is complete once its target block has been stepped onto a
/// given number of times without a break.
#[derive(Debug)]
pub struct WalkRepeatQuest {
    /// The block to step onto.
    target_block: Block,
    /// The steps of the current row, towards the number asked for.
    steps: Tally,
}

impl View for WalkRepeatQuest {
    type V = QuestModel;

    open spec fn view(&self) -> QuestModel {
        self.model()
    }
}

impl WalkRepeatQuest {
    /// The quest as a tree of goals.
    pub closed spec fn model(&self) -> QuestModel {
        QuestModel::WalkRepeat {
            target: self.target_block@,
            needed: self.steps@.needed,
            run: self.steps@.count,
            status: self.steps@.status,
        }
    }

    /// A quest to step onto blocks like `target_block` `target_count` times in
    /// a row. With a count of zero it is complete from the start.
    pub fn new(target_block: Block, target_count: u32) -> (quest: WalkRepeatQuest)
        ensures
            quest@ == (QuestModel::WalkRepeat {
                target: target_block@,
                needed: target_count as nat,
                run: 0,
                status: counted(0, target_count as nat),
            }),
            quest@.status() is Complete <==> target_count == 0,
            quest@.wf(),
            quest@.fresh(),
    {
        WalkRepeatQuest { target_block, steps: Tally::new(target_count) }
    }

    /// The status of the quest as it stands.
    pub fn status(&self) -> (status: QuestStatus)
        ensures
            status == self@.status(),
    {
        self.steps.status()
    }

    /// Takes note of `event` and reports the status that results. While the
    /// quest is ongoing a step onto the target lengthens the row, and
    /// anything else ends it.
    pub fn register_event(&mut self, event: &Event) -> (status: QuestStatus)
        ensures
            final(self)@ == old(self)@.step(event@),
            status == final(self)@.status(),
            old(self)@.status() is Complete ==> status is Complete,
    {
        if self.steps.status() != QuestStatus::Complete {
            if event.is_on(&self.target_block) {
                self.steps.advance();
            } else {
                self.steps.restart();
            }
        }
        self.steps.status()
    }

    /// The report on the quest.
    pub fn render(&self) -> (text: String)
        ensures
            text@ == self@.text(),
    {
        let mut text = self.steps.status().marker();
        text.append("Walk on exactly ");
        push_decimal(&mut text, self.steps.needed());
        text.append(" blocks of ");
        text.append(self.target_block.describe().as_str());
        text.append(" in a row");
        text
    }

    /// Starts the quest afresh.
    pub fn reset(&mut self)
        ensures
            final(self)@ == old(self)@.reset(),
    {
        self.steps.restart();
    }
}

impl Quest<Event> for WalkRepeatQuest {
    open spec fn block_of(event: &Event) -> Option<BlockView> {
        event@
    }

    fn register_event(&mut self, event: &Event) -> (status: QuestStatus) {
        WalkRepeatQuest::register_event(self, event)
    }

    fn reset(&mut self) {
        WalkRepeatQuest::reset(self)
    }

    fn render(&self) -> (text: String) {
        WalkRepeatQuest::render(self)
    }
}

} // verus!
