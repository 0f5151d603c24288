//! A snake game on a bounded grid: the snake's body and movement rule, the
//! collision checks, food placement, and the state machine that a host loop
//! drives with key presses and elapsed time.
//!
//! The functions here are verified against a mathematical model of the game:
//! [`snake::SnakeView`] for the snake and [`model::GameView`] for the whole
//! game. The one exception is the call into `rand` that draws a cell for new
//! food, whose contract is taken on trust. Rendering and the event loop live
//! outside this library and only read the state through the accessors.

pub mod game;
pub mod laws;
pub mod model;
mod sampling;
pub mod snake;
