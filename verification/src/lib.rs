//! Rustris: the falling-block game logic, verified.
//!
//! The library holds the full piece/board simulation: collision and landing
//! tests against the well grid, piece movement and rotation with wall kicks,
//! gravity and lock timing, line clearing, scoring and leveling, the hold
//! slot, and the seven-piece bag randomizer.

pub mod bag;
pub mod input;
pub mod menu;
pub mod play;
pub mod tetromino;
pub mod well;

