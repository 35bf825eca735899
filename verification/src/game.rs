//! Game-wide physics and layout constants.

use vstd::prelude::*;

verus! {

/// Height of the playing field in pixels; also the surface height of the
/// ground, measured from the top of the screen.
pub const HEIGHT: i16 = 600;

/// Downward acceleration added to a vertical velocity each tick.
pub const GRAVITY: i16 = 1;

/// Largest downward velocity gravity may produce.
pub const TERMINAL_VELOCITY: i16 = 20;

/// Horizontal speed of a running character.
pub const RUNNING_SPEED: i16 = 4;

} // verus!
