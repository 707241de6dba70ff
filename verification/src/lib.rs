//! A behavior-to-delta engine: static band tables map named score bands to
//! closed integer intervals, a resolver maps free-text classifier output to a
//! canonical behavior category, and a calculator turns a category plus the
//! current emotion and relationship scores into two bounded integer deltas.
//!
//! Coefficient multipliers are held in hundredths (the pair `(1.3, 0.7)` is
//! stored as `(130, 70)`), and products are rounded to the nearest integer
//! with ties away from zero.

use vstd::prelude::*;

pub mod behavior;
pub mod coefficients;
pub mod engine;
pub mod ranges;
pub mod resolver;
pub mod tables;
pub mod text;

verus! {

/// Rounds `x` hundredths to the nearest whole unit, ties away from zero.
pub open spec fn round_hundredths(x: int) -> int {
    if x >= 0 {
        (x + 50) / 100
    } else {
        -((-x + 50) / 100)
    }
}

} // verus!
