//! Quests: goals that a stream of game events works towards.
//!
//! A quest is either a primitive goal, which looks at each event itself, or a
//! combinator, which owns other quests and derives its status from theirs.
//! Combinators nest to any depth.

pub mod combinators;
pub mod laws;
pub mod model;
pub mod node;
pub mod tally;
pub mod walk_quest;
pub mod walk_repeat_quest;

use crate::blocks::Block;
use crate::blocks::BlockView;
use crate::quests::model::QuestModel;
use vstd::prelude::*;

verus! {

/// Whether a quest has been completed.
#[derive(Debug, PartialEq, Eq, Clone, Copy, Structural)]
pub enum QuestStatus {
    /// The goal has been reached.
    Complete,
    /// The goal has not been reached yet.
    Ongoing,
}

/// Something that happened in the game and may move a quest forward.
#[derive(Debug)]
pub struct Event {
    /// The block that was stepped onto, if the event is a step.
    block: Option<Block>,
}

impl View for Event {
    type V = Option<BlockView>;

    closed spec fn view(&self) -> Option<BlockView> {
        match self.block {
            Some(block) => Some(block@),
            None => None,
        }
    }
}

/// What every quest can do: take note of an event, start afresh, and report
/// on itself. A quest is one of the kinds that [`QuestModel`] lists, or made
/// of them, and does what the model says.
pub trait Quest<E>: View<V = QuestModel> {
    /// The block that `event` is a step onto, if it is a step.
    spec fn block_of(event: &E) -> Option<BlockView>;

    /// Takes note of `event` and reports the status that results. A quest
    /// that was complete reports completion again.
    fn register_event(&mut self, event: &E) -> (status: QuestStatus)
        ensures
            final(self)@ == old(self)@.step(Self::block_of(event)),
            status == final(self)@.status(),
            old(self)@.status() is Complete ==> status is Complete,
    ;

    /// Starts the quest afresh, so that it can be taken up again.
    fn reset(&mut self)
        ensures
            final(self)@ == old(self)@.reset(),
    ;

    /// The report on the quest: what it asks for and how far it has come.
    fn render(&self) -> (text: String)
        ensures
            text@ == self@.text(),
    ;
}

impl QuestStatus {
    /// The mark that a line of a report on a quest of this status starts
    /// with.
    pub fn marker(&self) -> (text: String)
        ensures
            text@ == crate::quests::model::marker(*self),
    {
        match self {
            QuestStatus::Complete => "[\u{2705}] ".to_owned(),
            QuestStatus::Ongoing => "[ ] ".to_owned(),
        }
    }
}

impl Event {
    /// The event of stepping onto `block`.
    pub fn on_block(block: Block) -> (event: Event)
        ensures
            event@ == Some(block@),
    {
        Event { block: Some(block) }
    }

    /// An event that is no step onto any block.
    pub fn without_block() -> (event: Event)
        ensures
            event@ is None,
    {
        Event { block: None }
    }

    /// Whether the event is a step onto a block like `target`.
    pub fn is_on(&self, target: &Block) -> (hit: bool)
        ensures
            hit == (self@ == Some(target@)),
    {
        match &self.block {
            Some(block) => *block == *target,
            None => false,
        }
    }
}

} // verus!
