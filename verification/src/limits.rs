//! Hardware limit flags and their classification into a test verdict.
//!
//! While a stability test runs, the device reports which protection
//! mechanisms (power, thermal, reliability voltage) constrained performance
//! during the sampling window, as a bitmask.  One additional bit, the
//! no-load bit, is set while the device is idle; the monitor also uses it as
//! the marker for an outright failed test.  Classification of a window's
//! accumulated flags (with the no-load bit already subtracted) into a coarse
//! verdict is a pure function, kept standalone so it can be reasoned about
//! and tested independently of any live device.

use vstd::prelude::*;

verus! {

/// Bit reported when the power limiter constrained performance.
pub const LIMIT_POWER: u32 = 1;

/// Bit reported when a thermal limiter constrained performance.
pub const LIMIT_THERMAL: u32 = 2;

/// Bit reported when the reliability-voltage limiter constrained performance.
pub const LIMIT_RELIABILITY: u32 = 4;

/// Bit reported when the operating-voltage limiter constrained performance.
pub const LIMIT_OPERATING: u32 = 8;

/// Bit reported while the device carries no load.  A verdict whose flags are
/// exactly this bit means the workload itself failed.
pub const LIMIT_NO_LOAD: u32 = 16;

/// A snapshot or accumulation of the device's limit-flag bitmask.
#[derive(Clone, Copy, Debug, PartialEq, Eq, Structural)]
pub struct LimitFlags {
    pub bits: u32,
}

impl LimitFlags {
    /// The empty flag set: nothing constrained performance.
    pub fn empty() -> (r: LimitFlags)
        ensures
            r.bits == 0,
    {
        LimitFlags { bits: 0 }
    }

    /// No bit is set.
    pub open spec fn spec_is_empty(self) -> bool {
        self.bits == 0
    }

    /// No bit is set.
    pub fn is_empty(&self) -> (r: bool)
        ensures
            r == self.spec_is_empty(),
    {
        self.bits == 0
    }

    /// Bitwise union with another flag set.
    pub fn union(self, other: LimitFlags) -> (r: LimitFlags)
        ensures
            r.bits == (self.bits | other.bits),
    {
        LimitFlags { bits: self.bits | other.bits }
    }

    /// This flag set restricted to the no-load bit.
    pub fn only_no_load(self) -> (r: LimitFlags)
        ensures
            r.bits == (self.bits & LIMIT_NO_LOAD),
    {
        LimitFlags { bits: self.bits & LIMIT_NO_LOAD }
    }

    /// This flag set with the no-load bit removed.
    pub fn without_no_load(self) -> (r: LimitFlags)
        ensures
            r.bits == (self.bits & !LIMIT_NO_LOAD),
    {
        LimitFlags { bits: self.bits & !LIMIT_NO_LOAD }
    }
}

/// The coarse outcome of one stability-test cycle.
#[derive(Clone, Copy, Debug, PartialEq, Eq, Structural)]
pub enum TestVerdict {
    /// The workload passed and the device held its clocks.
    Clean,
    /// The workload failed (or the test was abandoned): the applied offset is
    /// past the stable envelope.
    LoadLimited,
    /// The workload passed but a protection mechanism constrained
    /// performance; the flags say which.
    OtherLimited(LimitFlags),
}

/// Classification of a test window's accumulated limit flags, the no-load
/// bit already subtracted, into a verdict.
pub open spec fn spec_classify(flags: LimitFlags) -> TestVerdict {
    if flags.bits == 0 {
        TestVerdict::Clean
    } else if flags.bits == LIMIT_NO_LOAD {
        TestVerdict::LoadLimited
    } else {
        TestVerdict::OtherLimited(flags)
    }
}

/// Maps a test window's accumulated limit flags to a verdict.  No flags at
/// all is clean, exactly the no-load bit is a failed workload, anything
/// else names the limiter that intervened.
pub fn classify(flags: LimitFlags) -> (v: TestVerdict)
    ensures
        v == spec_classify(flags),
{
    if flags.bits == 0 {
        TestVerdict::Clean
    } else if flags.bits == LIMIT_NO_LOAD {
        TestVerdict::LoadLimited
    } else {
        TestVerdict::OtherLimited(flags)
    }
}

} // verus!
