//! The numbers that the game is played by.

use vstd::prelude::*;

verus! {

/// The width of the part of the world that the screen shows, in cells.
pub const VP_WIDTH: i32 = 78;

/// The height of the part of the world that the screen shows, in cells.
pub const VP_HEIGHT: i32 = 22;

/// How close to the edge of the screen the player may come before the
/// screen moves along, in cells.
pub const VP_BUFFER: i32 = 1;

/// The health that a player starts with, and has again after a step onto
/// harmless ground.
pub const PLAYER_HEALTH: i32 = 10;

} // verus!
