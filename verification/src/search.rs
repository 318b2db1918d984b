//! Per-point search for the maximum stable frequency offset, using the
//! stepped-ascent policy.
//!
//! Of the two policies the problem admits (stepped ascent and binary
//! search over a shrinking range) this library deliberately implements
//! stepped ascent, and only it: start from a known-good offset, confirm the
//! locked voltage before every cycle (device firmware silently drops the
//! lock), run one stability test at the candidate offset, and on a clean
//! verdict raise the candidate by one step.  A load-limited verdict steps
//! back three full steps and ends the search; any other non-clean verdict
//! steps back one.  The offset floor is zero, every candidate is a multiple
//! of the configured step, and the ascent stops on its own when one more
//! step would push the effective frequency past the configured maximum test
//! frequency.
//!
//! The machine only decides; the embedding program performs each returned
//! [`PointAction`] against the device and feeds back what it observed.

use vstd::prelude::*;

use crate::limits::TestVerdict;
use crate::units::{valid_kilohertz, valid_microvolts, MAX_KILOHERTZ};
use vstd::arithmetic::div_mod::{
    lemma_fundamental_div_mod, lemma_mod_add_multiples_vanish, lemma_mod_division_less_than_divisor,
    lemma_mod_multiples_basic, lemma_mod_multiples_vanish,
};

verus! {

/// A validated outcome for one table point: the accepted offset and the
/// effective frequency it yields.
#[derive(Clone, Copy, Debug, PartialEq, Eq, Structural)]
pub struct PointResult {
    /// Accepted frequency offset, in kilohertz: non-negative and a multiple
    /// of the configured step.
    pub offset: i64,
    /// Effective frequency at that offset: base frequency plus offset.
    pub frequency: i64,
}

/// Where one point's search currently stands.
#[derive(Clone, Copy, Debug)]
pub enum PointPhase {
    /// The voltage lock was (re-)applied; awaiting confirmation that the
    /// device reached the voltage.
    ConfirmVoltage,
    /// The candidate offset is applied and a stability test is running;
    /// awaiting its verdict.
    Testing,
    /// The search ended: either with a validated result, or with no result
    /// because the voltage was unreachable (the point is skipped).
    Done { result: Option<PointResult> },
}

/// What the embedding program is asked to do next.
#[derive(Clone, Copy, Debug)]
pub enum PointAction {
    /// Re-apply the voltage lock and wait for the voltage to be confirmed.
    ConfirmVoltage { voltage: i64, frequency: i64 },
    /// Raise the core-voltage headroom to its full percentage, then wait for
    /// the voltage once more.
    BoostAndConfirm { voltage: i64, frequency: i64 },
    /// Apply the candidate offset at this point's index and run one
    /// stability-test cycle at the resulting frequency.
    RunTest { offset: i64, frequency: i64 },
    /// Re-apply the accepted offset so device state matches the result, and
    /// record the result.
    Accept { offset: i64, frequency: i64 },
    /// Voltage unreachable even after boosting: record no result for this
    /// point and move on.
    Skip,
}

/// The largest admissible offset rounded down to a multiple of `step`.
pub open spec fn align_down(x: int, step: int) -> int {
    (x / step) * step
}

/// The highest candidate offset the configured maximum test frequency
/// admits at a given base frequency: the distance up to that maximum,
/// rounded down to a step multiple (zero when the base already exceeds it).
pub open spec fn offset_ceiling(base: int, max_frequency: int, step: int) -> int {
    if max_frequency >= base {
        align_down(max_frequency - base, step)
    } else {
        0
    }
}

/// The candidate offset the search starts from: the given starting offset
/// clamped to zero, rounded down to a step multiple, and capped at the
/// ceiling.
pub open spec fn initial_offset(start: int, base: int, max_frequency: int, step: int) -> int {
    let aligned = if start <= 0 {
        0
    } else {
        align_down(start, step)
    };
    if aligned <= offset_ceiling(base, max_frequency, step) {
        aligned
    } else {
        offset_ceiling(base, max_frequency, step)
    }
}

/// An offset stepped back by `amount`, clamped at the zero floor.
pub open spec fn stepped_back(offset: int, amount: int) -> int {
    if offset >= amount {
        offset - amount
    } else {
        0
    }
}

proof fn lemma_align_down_props(x: int, step: int)
    requires
        step >= 1,
        x >= 0,
    ensures
        0 <= align_down(x, step) <= x,
        align_down(x, step) % step == 0,
{
    lemma_fundamental_div_mod(x, step);
    lemma_mod_division_less_than_divisor(x, step);
    lemma_mod_multiples_basic(x / step, step);
}

/// The state of one point's stepped-ascent search.
pub struct PointSearch {
    /// Voltage of the table point under test, in microvolts.
    pub voltage: i64,
    /// Base frequency of the point, in kilohertz.
    pub base_frequency: i64,
    /// Configured step size, in kilohertz.
    pub step: i64,
    /// Configured maximum test frequency, in kilohertz.
    pub max_frequency: i64,
    /// Highest admissible candidate offset, fixed at construction:
    /// `offset_ceiling(base_frequency, max_frequency, step)`.
    pub offset_limit: i64,
    /// Effective frequency the point ran at when the search began; the
    /// voltage-confirmation equivalence check compares against it.
    pub entry_frequency: i64,
    /// Current candidate offset.
    pub offset: i64,
    /// Whether one voltage-boost escalation is still available should the
    /// voltage not be reached.
    pub boost_available: bool,
    /// Where the search stands.
    pub phase: PointPhase,
}

impl PointSearch {
    /// Well-formedness: bounded configuration, a candidate that is a
    /// non-negative step multiple below the ceiling, and a recorded result
    /// (if any) that is consistent with the configuration.
    pub open spec fn wf(self) -> bool {
        &&& 1 <= self.step <= MAX_KILOHERTZ
        &&& valid_kilohertz(self.base_frequency as int)
        &&& valid_kilohertz(self.max_frequency as int)
        &&& valid_kilohertz(self.entry_frequency as int)
        &&& valid_microvolts(self.voltage as int)
        &&& self.offset_limit == offset_ceiling(
            self.base_frequency as int,
            self.max_frequency as int,
            self.step as int,
        )
        &&& self.base_frequency + self.offset_limit <= MAX_KILOHERTZ
        &&& 0 <= self.offset <= self.offset_limit
        &&& self.offset % self.step == 0
        &&& self.offset_limit % self.step == 0
        &&& match self.phase {
            PointPhase::Done { result: Some(r) } => {
                &&& 0 <= r.offset <= self.offset_limit
                &&& r.offset % self.step == 0
                &&& r.frequency == self.base_frequency + r.offset
            },
            _ => true,
        }
    }

    /// The state after a voltage-confirmation attempt concludes: confirmed
    /// voltage moves on to testing; an unconfirmed one spends the single
    /// boost escalation if it is still available, and otherwise skips the
    /// point.
    pub open spec fn spec_on_voltage(self, reached: bool) -> PointSearch {
        if reached {
            PointSearch { phase: PointPhase::Testing, ..self }
        } else if self.boost_available {
            PointSearch { boost_available: false, ..self }
        } else {
            PointSearch { phase: PointPhase::Done { result: None }, ..self }
        }
    }

    /// The state after one test cycle's verdict.  A clean one ascends by one step
    /// (or accepts the candidate when one more step would cross the
    /// ceiling); load-limited steps back three steps and stops; any other
    /// limit steps back one and stops.  Step-backs are clamped at zero.
    pub open spec fn spec_on_verdict(self, verdict: TestVerdict) -> PointSearch {
        match verdict {
            TestVerdict::Clean => {
                if self.offset + self.step <= self.offset_limit {
                    PointSearch {
                        offset: (self.offset + self.step) as i64,
                        phase: PointPhase::ConfirmVoltage,
                        ..self
                    }
                } else {
                    self.accepted(self.offset as int)
                }
            },
            TestVerdict::LoadLimited => self.accepted(
                stepped_back(self.offset as int, 3 * self.step),
            ),
            TestVerdict::OtherLimited(_) => self.accepted(
                stepped_back(self.offset as int, self.step as int),
            ),
        }
    }

    /// The terminal state accepting `offset`.
    pub open spec fn accepted(self, offset: int) -> PointSearch {
        PointSearch {
            phase: PointPhase::Done {
                result: Some(
                    PointResult {
                        offset: offset as i64,
                        frequency: (self.base_frequency + offset) as i64,
                    },
                ),
            },
            ..self
        }
    }

    /// Opens the search for one table point.  The starting offset (commonly
    /// the offset the device currently applies at the point) is clamped to
    /// zero, rounded down to a step multiple and capped at the ceiling, so
    /// the search's invariants hold whatever is passed in.
    pub fn new(
        voltage: i64,
        base_frequency: i64,
        start_offset: i64,
        step: i64,
        max_frequency: i64,
        boost_available: bool,
    ) -> (s: PointSearch)
        requires
            1 <= step <= MAX_KILOHERTZ,
            valid_kilohertz(base_frequency as int),
            valid_kilohertz(max_frequency as int),
            valid_microvolts(voltage as int),
            -MAX_KILOHERTZ <= start_offset <= MAX_KILOHERTZ,
        ensures
            s.wf(),
            s.voltage == voltage,
            s.base_frequency == base_frequency,
            s.step == step,
            s.max_frequency == max_frequency,
            s.boost_available == boost_available,
            s.offset == initial_offset(
                start_offset as int,
                base_frequency as int,
                max_frequency as int,
                step as int,
            ),
            s.entry_frequency == base_frequency + s.offset,
            s.phase is ConfirmVoltage,
    {
        let offset_limit: i64 = if max_frequency >= base_frequency {
            let diff: u64 = (max_frequency - base_frequency) as u64;
            let st: u64 = step as u64;
            proof {
                lemma_align_down_props(diff as int, st as int);
            }
            ((diff / st) * st) as i64
        } else {
            0
        };
        proof {
            lemma_mod_multiples_basic(0, step as int);
        }
        let aligned: i64 = if start_offset <= 0 {
            0
        } else {
            let st: u64 = step as u64;
            proof {
                lemma_align_down_props(start_offset as int, st as int);
            }
            (((start_offset as u64) / st) * st) as i64
        };
        let offset: i64 = if aligned <= offset_limit {
            aligned
        } else {
            offset_limit
        };
        PointSearch {
            voltage,
            base_frequency,
            step,
            max_frequency,
            offset_limit,
            entry_frequency: base_frequency + offset,
            offset,
            boost_available,
            phase: PointPhase::ConfirmVoltage,
        }
    }

    /// The request a freshly applied voltage lock puts to the embedding
    /// program: wait for this voltage (or an equivalent operating point at
    /// the entry frequency).
    pub fn confirm_request(&self) -> (a: PointAction)
        requires
            self.phase is ConfirmVoltage,
        ensures
            a == (PointAction::ConfirmVoltage {
                voltage: self.voltage,
                frequency: self.entry_frequency,
            }),
    {
        PointAction::ConfirmVoltage { voltage: self.voltage, frequency: self.entry_frequency }
    }

    /// Consumes the outcome of a voltage-confirmation attempt.  The
    /// transition is exactly [`PointSearch::spec_on_voltage`].
    pub fn on_voltage_confirmed(&mut self, reached: bool) -> (a: PointAction)
        requires
            old(self).wf(),
            old(self).phase is ConfirmVoltage,
        ensures
            *final(self) == old(self).spec_on_voltage(reached),
            final(self).wf(),
            reached ==> a == (PointAction::RunTest {
                offset: old(self).offset,
                frequency: (old(self).base_frequency + old(self).offset) as i64,
            }),
            !reached && old(self).boost_available ==> a == (PointAction::BoostAndConfirm {
                voltage: old(self).voltage,
                frequency: old(self).entry_frequency,
            }),
            !reached && !old(self).boost_available ==> a == PointAction::Skip,
    {
        if reached {
            self.phase = PointPhase::Testing;
            PointAction::RunTest {
                offset: self.offset,
                frequency: self.base_frequency + self.offset,
            }
        } else if self.boost_available {
            self.boost_available = false;
            PointAction::BoostAndConfirm {
                voltage: self.voltage,
                frequency: self.entry_frequency,
            }
        } else {
            self.phase = PointPhase::Done { result: None };
            PointAction::Skip
        }
    }

    /// Consumes one test cycle's verdict.  The transition is exactly
    /// [`PointSearch::spec_on_verdict`].
    pub fn on_verdict(&mut self, verdict: TestVerdict) -> (a: PointAction)
        requires
            old(self).wf(),
            old(self).phase is Testing,
        ensures
            *final(self) == old(self).spec_on_verdict(verdict),
            final(self).wf(),
            a == match final(self).phase {
                PointPhase::ConfirmVoltage => PointAction::ConfirmVoltage {
                    voltage: old(self).voltage,
                    frequency: old(self).entry_frequency,
                },
                PointPhase::Done { result: Some(r) } => PointAction::Accept {
                    offset: r.offset,
                    frequency: r.frequency,
                },
                _ => PointAction::Skip,
            },
    {
        proof {
            lemma_mod_add_multiples_vanish(self.offset as int, self.step as int);
            lemma_mod_multiples_vanish(-3, self.offset as int, self.step as int);
            lemma_mod_multiples_vanish(-1, self.offset as int, self.step as int);
            lemma_mod_multiples_basic(0, self.step as int);
        }
        match verdict {
            TestVerdict::Clean => {
                if self.offset + self.step <= self.offset_limit {
                    self.offset = self.offset + self.step;
                    self.phase = PointPhase::ConfirmVoltage;
                    PointAction::ConfirmVoltage {
                        voltage: self.voltage,
                        frequency: self.entry_frequency,
                    }
                } else {
                    self.accept(self.offset)
                }
            },
            TestVerdict::LoadLimited => {
                let amount = 3 * self.step;
                let back = if self.offset >= amount {
                    self.offset - amount
                } else {
                    0
                };
                self.accept(back)
            },
            TestVerdict::OtherLimited(_) => {
                let back = if self.offset >= self.step {
                    self.offset - self.step
                } else {
                    0
                };
                self.accept(back)
            },
        }
    }

    /// Ends the search accepting `offset`, asking the embedding program to
    /// re-apply it so device state matches the reported result.
    fn accept(&mut self, offset: i64) -> (a: PointAction)
        requires
            old(self).wf(),
            0 <= offset <= old(self).offset_limit,
            offset % old(self).step == 0,
        ensures
            *final(self) == old(self).accepted(offset as int),
            final(self).wf(),
            a == (PointAction::Accept {
                offset,
                frequency: (old(self).base_frequency + offset) as i64,
            }),
    {
        let frequency = self.base_frequency + offset;
        self.phase = PointPhase::Done {
            result: Some(PointResult { offset, frequency }),
        };
        PointAction::Accept { offset, frequency }
    }

    /// The search's result once it is done; `None` both while it still runs
    /// and when the point was skipped.
    pub fn result(&self) -> (r: Option<PointResult>)
        ensures
            r == match self.phase {
                PointPhase::Done { result } => result,
                _ => None::<PointResult>,
            },
    {
        match self.phase {
            PointPhase::Done { result } => result,
            _ => None,
        }
    }

    /// True once the search reached its terminal phase.
    pub fn is_done(&self) -> (r: bool)
        ensures
            r == (self.phase is Done),
    {
        match self.phase {
            PointPhase::Done { .. } => true,
            _ => false,
        }
    }

    /// Rank of the phase within one candidate's cycle, for the termination
    /// measure: confirming with a boost in hand outranks confirming without
    /// one, which outranks testing.
    pub open spec fn phase_rank(self) -> int {
        match self.phase {
            PointPhase::ConfirmVoltage => if self.boost_available {
                2
            } else {
                1
            },
            PointPhase::Testing => 0,
            PointPhase::Done { .. } => 0,
        }
    }

    /// Termination measure of a live search: room left below the offset
    /// ceiling, weighted so that every transition strictly decreases it.
    pub open spec fn fuel(self) -> int {
        3 * (self.offset_limit - self.offset) + self.phase_rank()
    }
}

/// Every accepted offset is a non-negative multiple of the configured step,
/// and the reported frequency is the base frequency plus that offset.
pub proof fn lemma_offset_step_aligned(s: PointSearch, r: PointResult)
    requires
        s.wf(),
        s.phase == (PointPhase::Done { result: Some(r) }),
    ensures
        0 <= r.offset,
        r.offset % s.step == 0,
        r.frequency == s.base_frequency + r.offset,
{
}

/// Stepped-ascent monotonicity: a clean verdict never lowers the candidate
/// offset — it either raises it by exactly one step or accepts it unchanged
/// — while a failing verdict ends the search at once with an offset no
/// greater than the failed candidate, and strictly smaller whenever that
/// candidate was positive.
pub proof fn lemma_stepped_ascent_monotone(s: PointSearch, verdict: TestVerdict)
    requires
        s.wf(),
        s.phase is Testing,
    ensures
        verdict is Clean ==> {
            let t = s.spec_on_verdict(verdict);
            ||| (t.phase is ConfirmVoltage && t.offset == s.offset + s.step)
            ||| t.phase == (PointPhase::Done {
                result: Some(
                    PointResult {
                        offset: s.offset,
                        frequency: (s.base_frequency + s.offset) as i64,
                    },
                ),
            })
        },
        !(verdict is Clean) ==> {
            let t = s.spec_on_verdict(verdict);
            &&& t.phase matches PointPhase::Done { result: Some(r) }
            &&& r.offset <= s.offset
            &&& s.offset > 0 ==> r.offset < s.offset
        },
{
}

/// The stepped-ascent loop terminates: the measure [`PointSearch::fuel`] is
/// non-negative on every well-formed state, and every transition of a live
/// search either reaches the terminal phase or strictly decreases it — so a
/// search makes at most `fuel` more transitions.
pub proof fn lemma_stepped_ascent_terminates_voltage(s: PointSearch, reached: bool)
    requires
        s.wf(),
        s.phase is ConfirmVoltage,
    ensures
        s.fuel() >= 0,
        !(s.spec_on_voltage(reached).phase is Done) ==> s.spec_on_voltage(reached).fuel()
            < s.fuel(),
{
}

/// Companion to [`lemma_stepped_ascent_terminates_voltage`] for the verdict
/// transition.
pub proof fn lemma_stepped_ascent_terminates_verdict(s: PointSearch, verdict: TestVerdict)
    requires
        s.wf(),
        s.phase is Testing,
    ensures
        s.fuel() >= 0,
        !(s.spec_on_verdict(verdict).phase is Done) ==> s.spec_on_verdict(verdict).fuel()
            < s.fuel(),
{
}

} // verus!
