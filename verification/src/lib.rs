//! A terminal adventure game's rules, verified: the terrain blocks of the
//! world, movement on the grid, the player, and the quests a player can be
//! set, from single goals up to nested combinations of them.
//!
//! Nothing here draws or reads a key. The game takes keys as plain values
//! and answers each with what the screen has to do.

pub mod adventure;
pub mod blocks;
pub mod config;
pub mod movement;
pub mod player;
pub mod quests;
pub mod reaction;
pub mod screen;
pub mod text;
pub mod world;

pub use adventure::Adventure;
pub use adventure::Command;
pub use adventure::Key;
pub use blocks::Block;
pub use blocks::Color;
pub use blocks::Glyph;
pub use movement::coordinate::Coordinate;
pub use movement::direction::CardinalDirection;
pub use movement::direction::Direction;
pub use player::Player;
pub use quests::combinators::quest_majority::QuestMajority;
pub use quests::combinators::quest_repeat::QuestRepeat;
pub use quests::combinators::quest_then::QuestThen;
pub use quests::node::QuestNode;
pub use quests::walk_quest::WalkQuest;
pub use quests::walk_repeat_quest::WalkRepeatQuest;
pub use quests::Event;
pub use quests::Quest;
pub use quests::QuestStatus;
pub use reaction::Notice;
pub use reaction::NoticeChange;
pub use reaction::Reaction;
pub use reaction::Redraw;
pub use world::World;
