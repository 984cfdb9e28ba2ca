use vstd::prelude::*;

verus! {

/// Playfield size in display units.
pub const WIDTH: i32 = 224;
pub const HEIGHT: i32 = 288;
/// Largest magnitude of a fixed-point coordinate the simulation keeps.
pub const POS_BOUND: i32 = 16777216;

} // verus!
