//! Color phase engine: decides which color channel each row shows.
//!
//! A global phase in `[0, 32)` rotates the palette. For row `r` at phase
//! `p` the active channel is `(p + r) % 3`: 0 is red, 1 is green, 2 is
//! blue. Exactly one channel is lit per row. The phase itself advances
//! once every `threshold` ticks, driven by a sub-phase counter.

use vstd::prelude::*;

verus! {

/// Number of rows in the matrix.
pub const NUM_ROWS: u8 = 5;

/// Number of color phases in one full palette cycle.
pub const NUM_PHASES: u8 = 32;

/// The three line states driven onto one row: red, green and blue.
#[derive(Clone, Copy, PartialEq, Eq, Structural, Debug)]
pub struct RowColor {
    pub red: bool,
    pub green: bool,
    pub blue: bool,
}

/// The channel lit on row `r` at phase `p`: 0 red, 1 green, 2 blue.
pub open spec fn channel_of(p: int, r: int) -> int {
    (p + r) % 3
}

/// The color dictated for row `r` at phase `p`.
pub open spec fn color_at(p: int, r: int) -> RowColor {
    RowColor {
        red: channel_of(p, r) == 0,
        green: channel_of(p, r) == 1,
        blue: channel_of(p, r) == 2,
    }
}

/// Exactly one of the three channels is lit.
pub open spec fn one_hot_color(c: RowColor) -> bool {
    ||| (c.red && !c.green && !c.blue)
    ||| (!c.red && c.green && !c.blue)
    ||| (!c.red && !c.green && c.blue)
}

/// Every row color the phase formula produces lights exactly one channel.
pub proof fn lemma_color_one_hot(p: int, r: int)
    ensures
        one_hot_color(color_at(p, r)),
{
}

/// Compute the color of row `row` at phase `phase`.
pub fn row_color(phase: u8, row: u8) -> (c: RowColor)
    requires
        phase < NUM_PHASES,
        row < NUM_ROWS,
    ensures
        c == color_at(phase as int, row as int),
        one_hot_color(c),
{
    let channel: u8 = (phase + row) % 3;
    RowColor { red: channel == 0, green: channel == 1, blue: channel == 2 }
}

/// Compute the colors of all five rows at phase `phase`.
pub fn colors_for_phase(phase: u8) -> (rows: Vec<RowColor>)
    requires
        phase < NUM_PHASES,
    ensures
        rows.len() == NUM_ROWS,
        forall|r: int| 0 <= r < NUM_ROWS ==> rows[r] == color_at(phase as int, r),
        forall|r: int| 0 <= r < NUM_ROWS ==> one_hot_color(#[trigger] rows[r]),
{
    let mut rows: Vec<RowColor> = Vec::new();
    let mut r: u8 = 0;
    while r < NUM_ROWS
        invariant
            r <= NUM_ROWS,
            phase < NUM_PHASES,
            rows.len() == r as int,
            forall|i: int| 0 <= i < r as int ==> rows[i] == color_at(phase as int, i),
        decreases NUM_ROWS - r,
    {
        let c = row_color(phase, r);
        rows.push(c);
        r = r + 1;
    }
    proof {
        assert forall|i: int| 0 <= i < NUM_ROWS implies one_hot_color(#[trigger] rows[i]) by {
            lemma_color_one_hot(phase as int, i);
        }
    }
    rows
}

/// The sub-phase counter after one tick: it resets when it reaches the
/// threshold, else it holds the incremented count.
pub open spec fn counter_after_tick(counter: int, threshold: int) -> int {
    if counter + 1 >= threshold {
        0
    } else {
        counter + 1
    }
}

/// The phase after one tick: it steps forward (mod 32) exactly when the
/// counter reaches the threshold.
pub open spec fn phase_after_tick(counter: int, phase: int, threshold: int) -> int {
    if counter + 1 >= threshold {
        (phase + 1) % (NUM_PHASES as int)
    } else {
        phase
    }
}

/// Advance the sub-phase counter by one tick. When the counter reaches
/// `threshold` the phase steps forward (mod 32) and the counter resets;
/// otherwise the phase is unchanged. Returns the new counter and phase.
pub fn tick(counter: u32, phase: u8, threshold: u32) -> (next: (u32, u8))
    requires
        threshold >= 1,
        counter < threshold,
        phase < NUM_PHASES,
    ensures
        next.0 == counter_after_tick(counter as int, threshold as int),
        next.1 == phase_after_tick(counter as int, phase as int, threshold as int),
        next.0 < threshold,
        next.1 < NUM_PHASES,
{
    let c = counter + 1;
    if c >= threshold {
        (0, (phase + 1) % NUM_PHASES)
    } else {
        (c, phase)
    }
}

} // verus!
