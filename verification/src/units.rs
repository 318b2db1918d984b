//! Integer units shared by the whole library, and the bounds within which
//! every quantity is kept so that arithmetic on them cannot overflow.
//!
//! Frequencies are kilohertz, voltages are microvolts, both held in `i64`.
//! Frequency offsets (deltas applied on top of a point's base frequency) are
//! signed kilohertz in `i64` as well.

use vstd::prelude::*;

verus! {

/// Largest admissible frequency or frequency-offset magnitude, in kilohertz
/// (100 GHz, far above any real clock domain).
pub const MAX_KILOHERTZ: i64 = 100_000_000;

/// Largest admissible voltage, in microvolts (10 V, far above any real core
/// voltage).
pub const MAX_MICROVOLTS: i64 = 10_000_000;

/// A frequency in kilohertz lies within the admissible device range.
pub open spec fn valid_kilohertz(f: int) -> bool {
    0 <= f <= MAX_KILOHERTZ
}

/// A voltage in microvolts lies within the admissible device range.
pub open spec fn valid_microvolts(v: int) -> bool {
    0 <= v <= MAX_MICROVOLTS
}

} // verus!
