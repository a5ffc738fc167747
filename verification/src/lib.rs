//! Refresh engine for a multiplexed 5-row by 14-column RGB LED matrix.
//!
//! Once per timer tick the engine advances a column scanner (exactly one
//! column is energized at a time), computes the color shown on each of the
//! five rows from a cyclic color phase, and advances a sub-phase counter
//! that steps the phase once every fixed number of ticks. A separate module
//! derives the 16-bit prescaler and reload values that configure the
//! periodic timer from a clock/tick-rate ratio.

pub mod color;
pub mod engine;
pub mod scanner;
pub mod timing;
