//! Fixed-point units.
//!
//! Lengths, speeds and energies are `i64` counts of billionths, so that one
//! world unit, and one unit of energy, is [`ONE`]. Arithmetic on them is exact.

use vstd::prelude::*;

verus! {

/// The fixed-point representation of `1`.
pub const ONE: i64 = 1_000_000_000;

/// The energy at which a charging fly lights up, and to which it is clamped
/// when it does: `100`.
pub const GLOW_THRESHOLD: i64 = 100_000_000_000;

/// A dark fly whose energy lies above this ceiling does not charge: `500`.
pub const CHARGE_CEILING: i64 = 500_000_000_000;

} // verus!
