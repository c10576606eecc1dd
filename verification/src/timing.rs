//! Timing that the game and every controller share.

use vstd::prelude::*;

verus! {

/// Ticks per second of the game.
pub const REFRESH_RATE_HZ: u64 = 60;

/// Frames for which the screen stays black after a win: one second's worth.
pub const WIN_BLANK_DURATION_FRAMES: u64 = 60;

} // verus!
