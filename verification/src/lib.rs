//! Turn-decision analyzer for a grid-based strategy game.
//!
//! The library consumes an immutable snapshot of the game state and produces
//! a recommended action for the active non-human player: candidate actions
//! are enumerated in a fixed deterministic order, scored under a behavioral
//! profile, and the best-scoring candidate (first-generated on ties) is
//! returned.

use vstd::prelude::*;

pub mod engine;
pub mod evaluator;
pub mod model;
pub mod movegen;
pub mod profile;
pub mod validate;

verus! {

/// Adds two integers.
pub fn add(a: i32, b: i32) -> (r: i32)
    requires
        i32::MIN <= a + b <= i32::MAX,
    ensures
        r == a + b,
{
    a + b
}

} // verus!
