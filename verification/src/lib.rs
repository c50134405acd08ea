//! A falling-block puzzle game core: piece catalog with table-driven
//! rotation, an occupancy board with line clearing, the play-session
//! engine, and the menu state machine.

pub mod block;
pub mod board;
pub mod game;
pub mod menu;
pub mod sound;
