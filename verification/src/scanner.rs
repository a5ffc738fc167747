//! Column scanner: keeps at most one of the 14 column lines energized.
//!
//! The scanner tracks the current column index and a model of the 14
//! column line states. `advance` de-energizes the current column first
//! and only then energizes the next one (index + 1, wrapping at 14), so
//! two columns are never lit at once, not even between the two writes.

use vstd::prelude::*;

verus! {

/// Number of columns in the matrix.
pub const NUM_COLUMNS: u8 = 14;

/// The column that follows `c` in the scan order: one step forward,
/// wrapping at 14.
pub open spec fn next_column(c: int) -> int {
    (c + 1) % (NUM_COLUMNS as int)
}

/// At most one line of `lines` is energized.
pub open spec fn at_most_one_hot(lines: Seq<bool>) -> bool {
    forall|i: int, j: int|
        0 <= i < lines.len() && 0 <= j < lines.len() && lines[i] && lines[j] ==> i == j
}

/// Only line `col` (if any) is energized.
pub open spec fn lit_only_at(lines: Seq<bool>, col: int) -> bool {
    forall|i: int| 0 <= i < lines.len() && lines[i] ==> i == col
}

/// De-energizing the single lit column before energizing the next keeps
/// at most one column lit at every instant of the two-write sequence:
/// before the first write, between the writes, and after the second.
pub proof fn lemma_off_before_on_at_most_one_hot(lines: Seq<bool>, off: int, on: int)
    requires
        0 <= off < lines.len(),
        0 <= on < lines.len(),
        lit_only_at(lines, off),
    ensures
        at_most_one_hot(lines),
        at_most_one_hot(lines.update(off, false)),
        at_most_one_hot(lines.update(off, false).update(on, true)),
{
}

/// The scan state: the current column index and the modelled state of
/// the 14 column lines.
pub struct ColumnScanner {
    /// The current column: the only one that may be energized.
    pub col: u8,
    /// The energized state of each column line, indexed by column.
    pub lines: Vec<bool>,
}

impl ColumnScanner {
    /// The scanner is well formed: the index is in range, there is one
    /// line state per column, and no line but the current one is lit.
    pub open spec fn wf(self) -> bool {
        &&& self.col < NUM_COLUMNS
        &&& self.lines.len() == NUM_COLUMNS
        &&& lit_only_at(self.lines@, self.col as int)
    }

    /// The current column index.
    pub open spec fn current(self) -> int {
        self.col as int
    }

    /// Start at column 0 with every line de-energized, the state of the
    /// lines at power-on.
    pub fn new() -> (s: Self)
        ensures
            s.wf(),
            s.current() == 0,
            forall|i: int| 0 <= i < NUM_COLUMNS ==> !(#[trigger] s.lines[i]),
    {
        let mut lines: Vec<bool> = Vec::new();
        let mut i: u8 = 0;
        while i < NUM_COLUMNS
            invariant
                i <= NUM_COLUMNS,
                lines.len() == i as int,
                forall|k: int| 0 <= k < i as int ==> !(#[trigger] lines[k]),
            decreases NUM_COLUMNS - i,
        {
            lines.push(false);
            i = i + 1;
        }
        ColumnScanner { col: 0, lines }
    }

    /// One scan step: de-energize the current column, then energize the
    /// next (wrapping 13 back to 0). Returns the pair (column turned
    /// off, column turned on), in the order the writes must reach the
    /// hardware.
    pub fn advance(&mut self) -> (step: (u8, u8))
        requires
            old(self).wf(),
        ensures
            final(self).wf(),
            step.0 == old(self).current(),
            step.1 == final(self).current(),
            final(self).current() == next_column(old(self).current()),
            final(self).lines[final(self).current()],
            forall|i: int|
                0 <= i < NUM_COLUMNS && i != final(self).current()
                    ==> !(#[trigger] final(self).lines[i]),
    {
        let prev = self.col;
        self.lines.set(prev as usize, false);
        let next = (prev + 1) % NUM_COLUMNS;
        self.lines.set(next as usize, true);
        self.col = next;
        (prev, next)
    }
}

} // verus!
