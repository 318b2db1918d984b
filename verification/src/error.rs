//! The library's error taxonomy.
//!
//! Telemetry-query failures are transient and are absorbed by the test
//! monitor up to its budget, so they rarely surface here; a mutation
//! failure is fatal because device state can no longer be trusted; an
//! unreachable voltage is not an error at all (the point is skipped).  The
//! sweep records the first fatal error, restores the safety envelope and
//! flushes partial results before surfacing it.

use vstd::prelude::*;

verus! {

/// What went wrong, at the granularity the sweep's fault handling needs.
#[derive(Clone, Copy, Debug, PartialEq, Eq)]
pub enum Error {
    /// A device telemetry query failed past the tolerated budget.
    DeviceQueryFailed,
    /// A device mutation (offset, lock, override) failed; fatal.
    DeviceMutationFailed,
    /// The stability workload could not be launched; fatal.
    WorkloadLaunchFailed,
    /// The safety envelope could not be fully established, so no point was
    /// tested.
    SetupFailed,
    /// Restoring the safety envelope failed; reported only when no earlier
    /// error is pending.
    TeardownFailed,
    /// Handing the accumulated results to the export collaborator failed;
    /// reported only when no earlier error is pending.
    ExportFailed,
    /// The device exposes no voltage/frequency table.
    VfpUnsupported,
    /// No matching device was found.
    DeviceNotFound,
    /// A descriptive failure, such as an unrecognized enumeration name.
    Str(&'static str),
}

impl Error {
    /// The text of this error.
    pub open spec fn spec_message(self) -> Seq<char> {
        match self {
            Error::DeviceQueryFailed => "device query failed"@,
            Error::DeviceMutationFailed => "device mutation failed"@,
            Error::WorkloadLaunchFailed => "failed to launch the stability workload"@,
            Error::SetupFailed => "failed to establish the safety envelope"@,
            Error::TeardownFailed => "failed to restore the safety envelope"@,
            Error::ExportFailed => "failed to export the results"@,
            Error::VfpUnsupported => "VFP unsupported"@,
            Error::DeviceNotFound => "no matching device found"@,
            Error::Str(s) => s@,
        }
    }

    /// The text of this error, for reporting.
    pub fn message(&self) -> (r: &'static str)
        ensures
            r@ == self.spec_message(),
    {
        match *self {
            Error::DeviceQueryFailed => "device query failed",
            Error::DeviceMutationFailed => "device mutation failed",
            Error::WorkloadLaunchFailed => "failed to launch the stability workload",
            Error::SetupFailed => "failed to establish the safety envelope",
            Error::TeardownFailed => "failed to restore the safety envelope",
            Error::ExportFailed => "failed to export the results",
            Error::VfpUnsupported => "VFP unsupported",
            Error::DeviceNotFound => "no matching device found",
            Error::Str(s) => s,
        }
    }
}

} // verus!
