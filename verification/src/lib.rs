//! Weighted random selection among labeled choices, with an optional
//! "no selection" outcome.
//!
//! A [`RandomSelector`] holds an ordered sequence of `(weight, value)` pairs
//! and a total selectable mass.  Weights are IEEE 754 binary64 bit patterns
//! (`u64`), so the weight accounting is specified and verified exactly at the
//! level of the floating-point representation: magnitudes accumulate into the
//! total, raw signed weights accumulate during the selection scan, and a draw
//! selects the first choice whose cumulative sum it falls strictly below.

use vstd::prelude::*;

pub mod fbits;
pub mod laws;
pub mod selector;

verus! {

pub use crate::selector::FixedSource;
pub use crate::selector::RandomSelector;
pub use crate::selector::UniformSource;

} // verus!
