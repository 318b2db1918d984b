//! Automated voltage/frequency curve characterization for a tunable
//! clock/voltage device.
//!
//! The device exposes a discrete table of (voltage, frequency) operating
//! points.  This library drives a sweep over a contiguous index range of that
//! table, from high index (lowest voltage) downward, and for each point
//! searches for the maximum stable frequency offset by repeatedly applying a
//! candidate offset, running a stability workload, and classifying the
//! hardware limit flags observed while the workload ran.
//!
//! All device access, workload spawning and waiting are input/output and are
//! performed by the embedding program.  The library holds the decision logic
//! as explicit state machines: the embedding program performs the action each
//! machine asks for and feeds the observed outcome back in.  Every transition
//! is specified and verified, so the search policy, the failure tolerance and
//! the safety-envelope accounting are proved rather than tested.

pub mod conv;
pub mod error;
pub mod limits;
pub mod monitor;
pub mod search;
pub mod sweep;
pub mod types;
pub mod units;
pub mod voltage;
