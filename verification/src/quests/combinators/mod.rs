//! Combinators: quests whose status follows from that of the quests they own.

pub mod quest_majority;
pub mod quest_repeat;
pub mod quest_then;
