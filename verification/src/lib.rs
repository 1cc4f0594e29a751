//! Simulation core of a "capture the dots" game.
//!
//! A population of circular dots drifts inside a bounded arena. The player
//! plants one capture dot; every floating dot that touches a capturing dot is
//! captured and starts capturing in turn. When the chain reaction has settled
//! the round is won or lost by the number of dots captured.
//!
//! All lengths are whole numbers of *units*, `UNITS_PER_PIXEL` to a pixel, so
//! that every step of the simulation is exact integer arithmetic. Random
//! draws are `u32` values that stand for the fraction `draw / 2^32` of the
//! unit interval, and timestamps are `u32` ticks of the caller's clock. The
//! library never draws a random number or reads a clock itself: both are
//! handed in by the caller.
//!
//! - [`draw`]: what a draw stands for, and how draws share out a span.
//! - [`geometry`]: points, spawn positions, headings, distances.
//! - [`color`]: dot colours and their text form.
//! - [`dot`]: one dot and its state machine.
//! - [`table`]: the level table.
//! - [`model`]: a round as a mathematical value, and its operations.
//! - [`level`]: the executable round.
//! - [`game`]: the session around the live round.
//! - [`laws`]: what holds of every dot, round and session.
//! - [`text`]: digits of bytes, for the text forms.

pub mod color;
pub mod dot;
pub mod draw;
pub mod game;
pub mod geometry;
pub mod laws;
pub mod level;
pub mod model;
pub mod table;
pub mod text;

pub use crate::color::Color;
pub use crate::dot::{Dot, DotState, PackedDot, PackedDotState};
pub use crate::game::{Game, GameConfig, GameInstance};
pub use crate::geometry::Point;
pub use crate::level::Level;
pub use crate::model::LevelState;
pub use crate::table::ConfigLookupError;

use vstd::prelude::*;

verus! {

/// Number of length units in one pixel.
pub const UNITS_PER_PIXEL: i32 = 1_000;

/// Arena width in pixels.
pub const SCREEN_WIDTH: u16 = 800;

/// Arena height in pixels.
pub const SCREEN_HEIGHT: u16 = 600;

/// Arena width in units.
pub const ARENA_WIDTH: i32 = 800_000;

/// Arena height in units.
pub const ARENA_HEIGHT: i32 = 600_000;

/// Radius of a dot that has not grown, and the radius a dot shrinks back to.
pub const MIN_RADIUS: i32 = 8_000;

/// Radius of a fully grown dot.
pub const MAX_RADIUS: i32 = 50_000;

/// Change of radius per tick while a dot grows or shrinks.
pub const GROWTH_SPEED: i32 = 1_000;

/// Distance a floating dot travels per tick, summed over both axes.
pub const SPEED: i32 = 2_000;

/// Time a dot stays at full size before it starts to shrink.
pub const HANG_TIME: u32 = 300;

/// Least distance between a freshly placed dot and every arena edge:
/// twice the minimum radius and a tenth of a pixel.
pub const SPAWN_INSET: i32 = 16_100;

/// The arena in units is the screen in pixels; the spawn inset is twice the
/// minimum radius and a tenth of a pixel; and a dot of full size fits into
/// the arena with room to spare.
pub proof fn law_arena_matches_the_screen()
    ensures
        ARENA_WIDTH == SCREEN_WIDTH * UNITS_PER_PIXEL,
        ARENA_HEIGHT == SCREEN_HEIGHT * UNITS_PER_PIXEL,
        SPAWN_INSET == 2 * MIN_RADIUS + UNITS_PER_PIXEL / 10,
        2 * MAX_RADIUS + 2 * SPEED < ARENA_HEIGHT <= ARENA_WIDTH,
{
}

} // verus!
