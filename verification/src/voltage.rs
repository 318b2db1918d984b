//! Voltage confirmation: deciding whether a locked voltage has been reached,
//! and the once-per-second countdown toward the confirmation timeout.
//!
//! Before a frequency test is meaningful the device must be observed at the
//! requested voltage, or judged to have found an equivalent or better
//! operating point.  The embedding program polls current voltage and clock
//! once per second and feeds each observation to a [`VoltageWait`]; the
//! machine answers whether the voltage is confirmed, whether to keep
//! waiting, or whether the timeout has run out.

use vstd::prelude::*;

verus! {

/// A poll confirms the voltage when the device sits exactly at the target
/// voltage, or when it already runs at or above the target frequency on a
/// lower voltage (an equivalent or better operating point).
pub open spec fn spec_voltage_reached(
    current_voltage: int,
    current_frequency: int,
    target_voltage: int,
    target_frequency: int,
) -> bool {
    ||| current_voltage == target_voltage
    ||| (current_frequency >= target_frequency && current_voltage < target_voltage)
}

/// Decides from one telemetry sample whether the target voltage counts as
/// reached.
pub fn voltage_reached(
    current_voltage: i64,
    current_frequency: i64,
    target_voltage: i64,
    target_frequency: i64,
) -> (r: bool)
    ensures
        r == spec_voltage_reached(
            current_voltage as int,
            current_frequency as int,
            target_voltage as int,
            target_frequency as int,
        ),
{
    current_voltage == target_voltage || (current_frequency >= target_frequency
        && current_voltage < target_voltage)
}

/// The core-voltage boost percentage that leaves no headroom to escalate
/// to.
pub const FULL_BOOST_PERCENT: u32 = 100;

/// Whether an unconfirmed voltage may be answered by boosting core-voltage
/// headroom to the full percentage and waiting once more: only when no
/// voltage override was requested and the boost is not already full.
pub fn boost_escalation_allowed(voltage_override: bool, boost_percent: u32) -> (r: bool)
    ensures
        r == (!voltage_override && boost_percent < FULL_BOOST_PERCENT),
{
    !voltage_override && boost_percent < FULL_BOOST_PERCENT
}

/// What one poll of the voltage-confirmation loop concluded.
#[derive(Clone, Copy, Debug, PartialEq, Eq, Structural)]
pub enum WaitOutcome {
    /// The target voltage (or an equivalent operating point) was observed.
    Reached,
    /// Not there yet; poll again after one second.
    Waiting,
    /// The timeout ran out without confirmation.  This is a soft failure:
    /// the caller escalates or skips the point, it is not an error.
    TimedOut,
}

/// Countdown state of one voltage-confirmation attempt: how many one-second
/// polls are still allowed.
pub struct VoltageWait {
    /// Seconds (equivalently, polls) left before the attempt times out.
    pub remaining: u64,
}

impl VoltageWait {
    /// Starts an attempt with the configured timeout, in whole seconds.
    pub fn new(timeout_secs: u64) -> (r: VoltageWait)
        ensures
            r.remaining == timeout_secs,
    {
        VoltageWait { remaining: timeout_secs }
    }

    /// True when no poll is allowed any more; a fresh attempt with a zero
    /// timeout is expired from the start and confirms nothing.
    pub fn expired(&self) -> (r: bool)
        ensures
            r == (self.remaining == 0),
    {
        self.remaining == 0
    }

    /// Consumes one telemetry sample.  A sample that confirms the voltage
    /// ends the attempt at once; otherwise one second of budget is spent and
    /// the attempt times out when none is left.
    pub fn poll(
        &mut self,
        current_voltage: i64,
        current_frequency: i64,
        target_voltage: i64,
        target_frequency: i64,
    ) -> (o: WaitOutcome)
        requires
            old(self).remaining > 0,
        ensures
            spec_voltage_reached(
                current_voltage as int,
                current_frequency as int,
                target_voltage as int,
                target_frequency as int,
            ) ==> (o == WaitOutcome::Reached && *final(self) == *old(self)),
            !spec_voltage_reached(
                current_voltage as int,
                current_frequency as int,
                target_voltage as int,
                target_frequency as int,
            ) ==> {
                &&& final(self).remaining == old(self).remaining - 1
                &&& o == (if final(self).remaining == 0 {
                    WaitOutcome::TimedOut
                } else {
                    WaitOutcome::Waiting
                })
            },
    {
        if voltage_reached(current_voltage, current_frequency, target_voltage, target_frequency) {
            WaitOutcome::Reached
        } else {
            self.remaining = self.remaining - 1;
            if self.remaining == 0 {
                WaitOutcome::TimedOut
            } else {
                WaitOutcome::Waiting
            }
        }
    }
}

} // verus!
