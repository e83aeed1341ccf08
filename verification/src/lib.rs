use vstd::prelude::*;

pub mod display;
pub mod game;
pub mod rng;

verus! {

/// Nominal canvas size in terminal characters. The logical grid is addressed
/// at half this resolution: each cell renders as a two-column glyph, and the
/// playfield uses roughly a quarter of the nominal height above and below the
/// terminal's centre line.
pub const CANVAS_WIDTH: u16 = 46;

pub const CANVAS_HEIGHT: u16 = 46;

/// Fixed rate of the tick scheduler that drives the simulation.
pub const TICKS_PER_SEC: u16 = 10;

/// The tick scheduler's sleep interval: the whole milliseconds of one
/// second divided over the fixed tick rate.
pub fn tick_interval_ms() -> (ms: u64)
    ensures
        ms == 1000 as int / TICKS_PER_SEC as int,
{
    1000 / (TICKS_PER_SEC as u64)
}

} // verus!
