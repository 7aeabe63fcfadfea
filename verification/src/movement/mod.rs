//! Positions on the grid and the steps between them.

pub mod coordinate;
pub mod direction;
