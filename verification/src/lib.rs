//! Game logic of a side-scrolling reflex game: a falling glyph steered
//! through the gaps of a row of barriers.
//!
//! The library holds the rules (physics, barrier generation, collision, the
//! mode machine) and describes each frame as a list of drawing commands. A
//! host program feeds it elapsed time and key presses and paints the
//! commands.
use vstd::prelude::*;

pub mod host;
pub mod obstacle;
pub mod player;
pub mod state;

verus! {

/// Width of the visible grid, in cells.
pub const SCREEN_WIDTH: i32 = 80;

/// Height of the visible grid, in cells.
pub const SCREEN_HEIGHT: i32 = 50;

/// Length of one physics quantum, in microseconds.
pub const FRAME_DURATION: u64 = 75_000;

} // verus!
