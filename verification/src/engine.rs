//! Refresh engine: one full display step per timer tick.
//!
//! The engine owns the column scanner and the color state. Each call to
//! `step` advances the scanner by one column, computes the five row
//! colors from the current phase, and advances the sub-phase counter,
//! returning everything the hardware port needs for that tick. The
//! abstract transition is modelled by `step_state`, and its iteration by
//! `state_after`, which the period lemmas below are stated over.

use vstd::prelude::*;
use vstd::arithmetic::div_mod::lemma_add_mod_noop;
use vstd::arithmetic::div_mod::lemma_div_of0;
use vstd::arithmetic::div_mod::lemma_fundamental_div_mod;
use vstd::arithmetic::div_mod::lemma_fundamental_div_mod_converse;
use vstd::arithmetic::div_mod::lemma_small_mod;

use crate::color::color_at;
use crate::color::colors_for_phase;
use crate::color::counter_after_tick;
use crate::color::one_hot_color;
use crate::color::phase_after_tick;
use crate::color::tick;
use crate::color::RowColor;
use crate::color::NUM_PHASES;
use crate::color::NUM_ROWS;
use crate::scanner::next_column;
use crate::scanner::ColumnScanner;
use crate::scanner::NUM_COLUMNS;

verus! {

/// The abstract refresh state: the lit column, the color phase, and the
/// sub-phase tick counter.
pub struct EngineState {
    pub col: int,
    pub phase: int,
    pub counter: int,
}

/// The state at power-on: everything zero.
pub open spec fn initial_state() -> EngineState {
    EngineState { col: 0, phase: 0, counter: 0 }
}

/// The transition applied once per tick: the column advances by one
/// (wrapping at 14), and the counter and phase advance by the sub-phase
/// rule, each side ignoring the other's part of the state.
pub open spec fn step_state(s: EngineState, threshold: int) -> EngineState {
    EngineState {
        col: next_column(s.col),
        phase: phase_after_tick(s.counter, s.phase, threshold),
        counter: counter_after_tick(s.counter, threshold),
    }
}

/// The state reached after `n` ticks from `s`.
pub open spec fn state_after(s: EngineState, threshold: int, n: nat) -> EngineState
    decreases n,
{
    if n == 0 {
        s
    } else {
        step_state(state_after(s, threshold, (n - 1) as nat), threshold)
    }
}

/// Column and color updates are independent: a tick advances the column
/// to the same next index whatever the phase, counter and threshold
/// are, and it always advances it by exactly one step.
pub proof fn lemma_column_advance_independent(
    s1: EngineState,
    s2: EngineState,
    t1: int,
    t2: int,
)
    requires
        s1.col == s2.col,
    ensures
        step_state(s1, t1).col == step_state(s2, t2).col,
        step_state(s1, t1).col == next_column(s1.col),
{
}

/// After `n` ticks from the all-zero start the column is `n % 14`, the
/// phase is `(n / threshold) % 32` and the counter is `n % threshold`.
pub proof fn lemma_state_after_closed_form(threshold: int, n: nat)
    requires
        threshold >= 1,
    ensures
        state_after(initial_state(), threshold, n) == (EngineState {
            col: (n as int) % (NUM_COLUMNS as int),
            phase: ((n as int) / threshold) % (NUM_PHASES as int),
            counter: (n as int) % threshold,
        }),
    decreases n,
{
    let ni = n as int;
    if n == 0 {
        lemma_div_of0(threshold);
        lemma_small_mod(0, threshold as nat);
    } else {
        let mi = ni - 1;
        lemma_state_after_closed_form(threshold, (n - 1) as nat);
        let q = mi / threshold;
        let r = mi % threshold;
        lemma_fundamental_div_mod(mi, threshold);
        lemma_add_mod_noop(mi, 1, NUM_COLUMNS as int);
        if r + 1 >= threshold {
            assert(threshold * q + threshold == (q + 1) * threshold) by (nonlinear_arith);
            lemma_fundamental_div_mod_converse(ni, threshold, q + 1, 0);
            lemma_add_mod_noop(q, 1, NUM_PHASES as int);
        } else {
            assert(threshold * q == q * threshold) by (nonlinear_arith);
            lemma_fundamental_div_mod_converse(ni, threshold, q, r + 1);
        }
    }
}

/// After `n` ticks from the start the current column is `n % 14`.
pub proof fn lemma_column_after_ticks(threshold: int, n: nat)
    requires
        threshold >= 1,
    ensures
        state_after(initial_state(), threshold, n).col == (n as int) % (NUM_COLUMNS as int),
{
    lemma_state_after_closed_form(threshold, n);
}

/// One full column sweep: 14 ticks return the column to 0, whatever the
/// threshold, and with it the phase and counter, are at that point.
pub proof fn lemma_full_column_sweep(threshold: int)
    requires
        threshold >= 1,
    ensures
        state_after(initial_state(), threshold, NUM_COLUMNS as nat).col == 0,
{
    lemma_column_after_ticks(threshold, NUM_COLUMNS as nat);
}

/// One full color cycle: after `threshold * 32` ticks the phase and the
/// counter are back at their initial zeros.
pub proof fn lemma_full_color_period(threshold: int, n: nat)
    requires
        threshold >= 1,
        n == threshold * (NUM_PHASES as int),
    ensures
        state_after(initial_state(), threshold, n).phase == 0,
        state_after(initial_state(), threshold, n).counter == 0,
{
    lemma_state_after_closed_form(threshold, n);
    let ni = n as int;
    assert(ni == (NUM_PHASES as int) * threshold + 0);
    lemma_fundamental_div_mod_converse(ni, threshold, NUM_PHASES as int, 0);
}

/// One computed refresh step, ready to hand to the hardware port: turn
/// `column_off` off, then turn `column_on` on, then drive `rows[r]`
/// onto each row `r`.
pub struct FrameStep {
    pub column_off: u8,
    pub column_on: u8,
    pub rows: Vec<RowColor>,
}

/// The refresh engine: the concrete scan and color state, stepped once
/// per timer tick.
pub struct RefreshEngine {
    /// The column scanner, holding the lit column and the line model.
    pub scanner: ColumnScanner,
    /// The color phase, in `[0, 32)`.
    pub phase: u8,
    /// Ticks accumulated since the phase last stepped.
    pub counter: u32,
    /// Ticks between two phase steps; fixed for the engine's lifetime.
    pub threshold: u32,
}

impl RefreshEngine {
    /// The engine is well formed: the scanner is, and phase and counter
    /// are inside their cycles.
    pub open spec fn wf(self) -> bool {
        &&& self.scanner.wf()
        &&& self.phase < NUM_PHASES
        &&& self.threshold >= 1
        &&& self.counter < self.threshold
    }

    /// The abstract state of the engine.
    pub open spec fn state(self) -> EngineState {
        EngineState {
            col: self.scanner.current(),
            phase: self.phase as int,
            counter: self.counter as int,
        }
    }

    /// A fresh engine in the all-zero state. `threshold` is the number
    /// of ticks between two color-phase steps.
    pub fn new(threshold: u32) -> (e: Self)
        requires
            threshold >= 1,
        ensures
            e.wf(),
            e.state() == initial_state(),
            e.threshold == threshold,
    {
        RefreshEngine { scanner: ColumnScanner::new(), phase: 0, counter: 0, threshold }
    }

    /// One refresh step: advance the column (turning the old one off
    /// before the new one on), compute every row's color from the phase
    /// as it stood at the start of the tick, then advance the sub-phase
    /// counter. The abstract state moves by exactly one `step_state`.
    pub fn step(&mut self) -> (frame: FrameStep)
        requires
            old(self).wf(),
        ensures
            final(self).wf(),
            final(self).threshold == old(self).threshold,
            final(self).state() == step_state(old(self).state(), old(self).threshold as int),
            frame.column_off == old(self).state().col,
            frame.column_on == final(self).state().col,
            frame.rows.len() == NUM_ROWS,
            forall|r: int|
                0 <= r < NUM_ROWS ==> frame.rows[r] == color_at(old(self).state().phase, r),
            forall|r: int| 0 <= r < NUM_ROWS ==> one_hot_color(#[trigger] frame.rows[r]),
            final(self).scanner.lines[final(self).state().col],
    {
        let (off, on) = self.scanner.advance();
        let rows = colors_for_phase(self.phase);
        let (counter, phase) = tick(self.counter, self.phase, self.threshold);
        self.counter = counter;
        self.phase = phase;
        FrameStep { column_off: off, column_on: on, rows }
    }
}

} // verus!
