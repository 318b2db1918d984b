//! The sweep driver: safety-envelope accounting, iteration over the
//! requested index range from high index (lowest voltage) downward, and
//! accumulation of validated points into the ordered result set.
//!
//! The machine guarantees the sweep's two fault-tolerance contracts.  The
//! safety envelope, once established, is torn down exactly once — whether
//! the sweep completes, covers an empty range, or aborts on an error.  And
//! the accumulated results are flushed to the export collaborator on every
//! path, so a failure late in a multi-hour sweep never loses the points
//! already validated; the first fatal error is preserved across teardown
//! and flush and surfaced at the end.

use vstd::prelude::*;

use crate::error::Error;
use crate::units::{valid_kilohertz, valid_microvolts, MAX_KILOHERTZ};

verus! {

/// Fan duty cycle, in percent, forced while testing (unless overridden) to
/// take thermal throttling out of the picture.
pub const FAN_TEST_DUTY: u8 = 85;

/// One entry of the device's voltage/frequency table, as read at sweep
/// start.
#[derive(Clone, Copy, Debug, PartialEq, Eq, Structural)]
pub struct ClockPoint {
    /// The point's voltage, in microvolts.
    pub voltage: i64,
    /// The point's base frequency, in kilohertz.
    pub base_frequency: i64,
    /// The signed offset currently applied on top of the base frequency, in
    /// kilohertz.
    pub offset: i64,
}

impl ClockPoint {
    /// The frequency the point yields with its offset applied.
    pub open spec fn effective_frequency(self) -> int {
        self.base_frequency + self.offset
    }

    /// Bounded fields, as any real device reports them.
    pub open spec fn wf(self) -> bool {
        &&& valid_microvolts(self.voltage as int)
        &&& valid_kilohertz(self.base_frequency as int)
        &&& -MAX_KILOHERTZ <= self.offset <= MAX_KILOHERTZ
    }
}

/// Configuration of one automated sweep.
#[derive(Clone, Debug)]
pub struct AutoDetectOptions {
    /// Leave the fan alone instead of forcing it to [`FAN_TEST_DUTY`].
    pub fan_override: bool,
    /// Leave the core-voltage boost alone instead of escalating it when a
    /// voltage cannot be reached.
    pub voltage_override: bool,
    /// Leave the power limits alone instead of raising them to their
    /// maxima.
    pub perflimit_override: bool,
    /// Step resolution of the search, in kilohertz.
    pub step: i64,
    /// Path of the stability workload to launch, if one is configured;
    /// otherwise each cycle asks for interactive confirmation.
    pub test: Option<String>,
    /// Seconds to wait for a locked voltage to be confirmed.
    pub voltage_wait_secs: u64,
    /// Highest frequency the search may test, in kilohertz.
    pub max_frequency: i64,
}

impl AutoDetectOptions {
    /// Bounded configuration.
    pub open spec fn wf(self) -> bool {
        &&& 1 <= self.step <= MAX_KILOHERTZ
        &&& valid_kilohertz(self.max_frequency as int)
    }

    /// No workload binary is configured: verdicts come from interactive
    /// confirmation.
    pub open spec fn spec_interactive(self) -> bool {
        self.test is None
    }

    /// No workload binary is configured.
    pub fn interactive(&self) -> (r: bool)
        ensures
            r == self.spec_interactive(),
    {
        self.test.is_none()
    }
}

/// One validated result record: `(voltage, frequency, offset)` at a table
/// index.
#[derive(Clone, Copy, Debug, PartialEq, Eq, Structural)]
pub struct VfRecord {
    /// The table index the record belongs to.
    pub index: usize,
    /// The point's voltage, in microvolts.
    pub voltage: i64,
    /// The validated effective frequency, in kilohertz.
    pub frequency: i64,
    /// The accepted offset, in kilohertz.
    pub offset: i64,
}

/// What the safety-envelope setup must do.
#[derive(Clone, Copy, Debug)]
pub struct EnvelopePlan {
    /// Force the fan to this duty cycle, if given.
    pub fan_duty: Option<u8>,
    /// Raise all power limits to their device-reported maxima.
    pub raise_power_limits: bool,
}

/// Everything the per-point search needs for the point now under test.
#[derive(Clone, Copy, Debug)]
pub struct PointRequest {
    /// The table index to test.
    pub index: usize,
    /// The point's voltage, in microvolts.
    pub voltage: i64,
    /// The point's base frequency, in kilohertz.
    pub base_frequency: i64,
    /// The offset to start the ascent from: the one currently applied at
    /// the point.
    pub start_offset: i64,
    /// Step resolution, in kilohertz.
    pub step: i64,
    /// Highest frequency the search may test, in kilohertz.
    pub max_frequency: i64,
}

/// How one point's search ended, as reported back by the embedding
/// program.
#[derive(Clone, Copy, Debug)]
pub enum PointOutcome {
    /// The search validated this offset and effective frequency.
    Accepted { offset: i64, frequency: i64 },
    /// The voltage was unreachable; the point is skipped silently.
    Skipped,
    /// A fatal error; the sweep aborts after teardown and flush.
    Failed { error: Error },
}

/// Where the sweep stands.
#[derive(Clone, Copy, Debug, PartialEq, Eq, Structural)]
pub enum SweepPhase {
    /// The safety envelope is being established.
    Setup,
    /// Points are being tested, from the cursor downward.
    Running,
    /// The safety envelope is being restored.
    TearingDown,
    /// The accumulated results are being handed to the export
    /// collaborator.
    Flushing,
    /// The sweep is over; its outcome is available.
    Finished,
}

/// The sweep machine.
pub struct CurveSweep {
    /// The device's table, read once at sweep start.
    pub table: Vec<ClockPoint>,
    /// Lowest index of the requested range, inclusive.
    pub start_index: usize,
    /// Highest index of the requested range, inclusive; the range is empty
    /// when it is below `start_index`.
    pub end_index: usize,
    /// The sweep's configuration.
    pub options: AutoDetectOptions,
    /// The index under test while running; counts downward.
    pub cursor: usize,
    /// Validated records, in ascending table-index order.
    pub results: Vec<VfRecord>,
    /// How many times teardown has been performed.
    pub teardowns: u32,
    /// Whether the safety envelope was established.
    pub envelope_established: bool,
    /// The first fatal error, preserved across teardown and flush.
    pub pending_error: Option<Error>,
    /// Where the sweep stands.
    pub phase: SweepPhase,
}

impl CurveSweep {
    /// Configuration fields never change after construction.
    pub open spec fn same_config(self, other: CurveSweep) -> bool {
        &&& self.table@ == other.table@
        &&& self.start_index == other.start_index
        &&& self.end_index == other.end_index
        &&& self.options == other.options
    }

    /// Well-formedness: bounded configuration and table, a cursor inside
    /// the requested range while running, teardown accounting tied to the
    /// phase, and a result set that is sorted, within the requested range,
    /// step-aligned and consistent with the table.
    pub open spec fn wf(self) -> bool {
        &&& self.options.wf()
        &&& forall|i: int| 0 <= i < self.table@.len() ==> (#[trigger] self.table@[i]).wf()
        &&& self.start_index <= self.end_index ==> self.end_index < self.table@.len()
        &&& self.phase is Running ==> self.start_index <= self.cursor <= self.end_index
        &&& match self.phase {
            SweepPhase::Setup => {
                &&& self.teardowns == 0
                &&& !self.envelope_established
                &&& self.pending_error is None
                &&& self.results@.len() == 0
            },
            SweepPhase::Running => {
                &&& self.teardowns == 0
                &&& self.envelope_established
                &&& self.pending_error is None
            },
            SweepPhase::TearingDown => self.teardowns == 0 && self.envelope_established,
            SweepPhase::Flushing => self.teardowns == 1 && self.envelope_established,
            SweepPhase::Finished => self.teardowns == if self.envelope_established {
                1int
            } else {
                0int
            },
        }
        &&& forall|i: int|
            0 <= i < self.results@.len() ==> self.start_index <= (
            #[trigger] self.results@[i]).index <= self.end_index
        &&& forall|i: int|
            0 <= i < self.results@.len() ==> (#[trigger] self.results@[i]).index
                < self.table@.len()
        &&& forall|i: int, j: int|
            0 <= i < j < self.results@.len() ==> self.results@[i].index < self.results@[j].index
        &&& self.phase is Running ==> forall|i: int|
            0 <= i < self.results@.len() ==> (#[trigger] self.results@[i]).index > self.cursor
        &&& forall|i: int|
            0 <= i < self.results@.len() ==> {
                let r = #[trigger] self.results@[i];
                &&& r.voltage == self.table@[r.index as int].voltage
                &&& r.frequency == self.table@[r.index as int].base_frequency + r.offset
                &&& 0 <= r.offset <= MAX_KILOHERTZ
                &&& r.offset % self.options.step == 0
            }
    }

    /// Opens a sweep over `table` for the inclusive index range
    /// `start_index ..= end_index` (empty when inverted).  Nothing happens
    /// until the embedding program reports on the safety-envelope setup.
    pub fn new(
        table: Vec<ClockPoint>,
        start_index: usize,
        end_index: usize,
        options: AutoDetectOptions,
    ) -> (s: CurveSweep)
        requires
            options.wf(),
            forall|i: int| 0 <= i < table@.len() ==> (#[trigger] table@[i]).wf(),
            start_index <= end_index ==> end_index < table@.len(),
        ensures
            s.wf(),
            s.table@ == table@,
            s.start_index == start_index,
            s.end_index == end_index,
            s.options == options,
            s.results@.len() == 0,
            s.teardowns == 0,
            !s.envelope_established,
            s.pending_error is None,
            s.phase is Setup,
    {
        CurveSweep {
            table,
            start_index,
            end_index,
            options,
            cursor: end_index,
            results: Vec::new(),
            teardowns: 0,
            envelope_established: false,
            pending_error: None,
            phase: SweepPhase::Setup,
        }
    }

    /// What establishing the safety envelope must do: force the fan to the
    /// fixed test duty cycle unless overridden, and raise the power limits
    /// to their maxima unless overridden.
    pub fn setup_plan(&self) -> (p: EnvelopePlan)
        requires
            self.phase is Setup,
        ensures
            p.fan_duty == if self.options.fan_override {
                None::<u8>
            } else {
                Some(FAN_TEST_DUTY)
            },
            p.raise_power_limits == !self.options.perflimit_override,
    {
        EnvelopePlan {
            fan_duty: if self.options.fan_override {
                None
            } else {
                Some(FAN_TEST_DUTY)
            },
            raise_power_limits: !self.options.perflimit_override,
        }
    }

    /// Reports whether the safety envelope was established.  Failure is
    /// fatal before any point is tested: the sweep finishes at once with no
    /// teardown (nothing was changed for it to restore).  Success starts
    /// the iteration, or goes straight to teardown when the range is
    /// empty.
    pub fn on_setup(&mut self, ok: bool) -> (done: bool)
        requires
            old(self).wf(),
            old(self).phase is Setup,
        ensures
            final(self).wf(),
            final(self).same_config(*old(self)),
            final(self).results@ == old(self).results@,
            !ok ==> {
                &&& final(self).phase is Finished
                &&& final(self).pending_error == Some(Error::SetupFailed)
                &&& !final(self).envelope_established
                &&& final(self).teardowns == 0
            },
            ok ==> {
                &&& final(self).envelope_established
                &&& final(self).pending_error is None
                &&& final(self).teardowns == 0
                &&& if old(self).start_index <= old(self).end_index {
                    final(self).phase is Running && final(self).cursor == old(self).end_index
                } else {
                    final(self).phase is TearingDown
                }
            },
            done == (final(self).phase is Finished),
    {
        if !ok {
            self.pending_error = Some(Error::SetupFailed);
            self.phase = SweepPhase::Finished;
            true
        } else {
            self.envelope_established = true;
            if self.start_index <= self.end_index {
                self.cursor = self.end_index;
                self.phase = SweepPhase::Running;
            } else {
                self.phase = SweepPhase::TearingDown;
            }
            false
        }
    }

    /// The point to test next.  The index always lies inside the requested
    /// range, which lies inside the table: the sweep never asks for an
    /// index outside what it was given.
    pub fn next_request(&self) -> (r: PointRequest)
        requires
            self.wf(),
            self.phase is Running,
        ensures
            self.start_index <= r.index <= self.end_index,
            r.index < self.table@.len(),
            r.index == self.cursor,
            r.voltage == self.table@[r.index as int].voltage,
            r.base_frequency == self.table@[r.index as int].base_frequency,
            r.start_offset == self.table@[r.index as int].offset,
            r.step == self.options.step,
            r.max_frequency == self.options.max_frequency,
    {
        let point = self.table[self.cursor];
        PointRequest {
            index: self.cursor,
            voltage: point.voltage,
            base_frequency: point.base_frequency,
            start_offset: point.offset,
            step: self.options.step,
            max_frequency: self.options.max_frequency,
        }
    }

    /// The phase the iteration moves to after a non-fatal point outcome.
    pub open spec fn next_phase(self) -> SweepPhase {
        if self.cursor > self.start_index {
            SweepPhase::Running
        } else {
            SweepPhase::TearingDown
        }
    }

    /// The cursor after a non-fatal point outcome.
    pub open spec fn next_cursor(self) -> usize {
        if self.cursor > self.start_index {
            (self.cursor - 1) as usize
        } else {
            self.cursor
        }
    }

    /// Consumes one point's outcome.  A validated result is recorded at the
    /// front of the result set (keeping it in ascending table-index order)
    /// and the cursor moves down; a skipped point just moves on; a fatal
    /// error stops the iteration and heads for teardown with the error
    /// pending.
    pub fn on_point_result(&mut self, outcome: PointOutcome)
        requires
            old(self).wf(),
            old(self).phase is Running,
            outcome matches PointOutcome::Accepted { offset, frequency } ==> {
                &&& 0 <= offset <= MAX_KILOHERTZ
                &&& offset % old(self).options.step == 0
                &&& frequency == old(self).table@[old(self).cursor as int].base_frequency + offset
            },
        ensures
            final(self).wf(),
            final(self).same_config(*old(self)),
            final(self).teardowns == 0,
            final(self).envelope_established,
            match outcome {
                PointOutcome::Accepted { offset, frequency } => {
                    &&& final(self).results@ == old(self).results@.insert(
                        0,
                        VfRecord {
                            index: old(self).cursor,
                            voltage: old(self).table@[old(self).cursor as int].voltage,
                            frequency,
                            offset,
                        },
                    )
                    &&& final(self).phase == old(self).next_phase()
                    &&& final(self).cursor == old(self).next_cursor()
                    &&& final(self).pending_error is None
                },
                PointOutcome::Skipped => {
                    &&& final(self).results@ == old(self).results@
                    &&& final(self).phase == old(self).next_phase()
                    &&& final(self).cursor == old(self).next_cursor()
                    &&& final(self).pending_error is None
                },
                PointOutcome::Failed { error } => {
                    &&& final(self).results@ == old(self).results@
                    &&& final(self).phase is TearingDown
                    &&& final(self).pending_error == Some(error)
                },
            },
    {
        match outcome {
            PointOutcome::Accepted { offset, frequency } => {
                let point = self.table[self.cursor];
                self.results.insert(
                    0,
                    VfRecord { index: self.cursor, voltage: point.voltage, frequency, offset },
                );
                if self.cursor > self.start_index {
                    self.cursor = self.cursor - 1;
                } else {
                    self.phase = SweepPhase::TearingDown;
                }
            },
            PointOutcome::Skipped => {
                if self.cursor > self.start_index {
                    self.cursor = self.cursor - 1;
                } else {
                    self.phase = SweepPhase::TearingDown;
                }
            },
            PointOutcome::Failed { error } => {
                self.pending_error = Some(error);
                self.phase = SweepPhase::TearingDown;
            },
        }
    }

    /// Whether teardown must reset the fan override: exactly when setup
    /// forced it.
    pub fn teardown_plan(&self) -> (reset_fan: bool)
        requires
            self.phase is TearingDown,
        ensures
            reset_fan == !self.options.fan_override,
    {
        !self.options.fan_override
    }

    /// Reports the teardown's result.  Teardown happens here and nowhere
    /// else, so it is performed exactly once per established envelope; its
    /// own failure is recorded only when no earlier error is pending, and
    /// never masks one.
    pub fn on_teardown(&mut self, ok: bool)
        requires
            old(self).wf(),
            old(self).phase is TearingDown,
        ensures
            final(self).wf(),
            final(self).same_config(*old(self)),
            final(self).results@ == old(self).results@,
            final(self).phase is Flushing,
            final(self).teardowns == 1,
            final(self).envelope_established,
            final(self).pending_error == if old(self).pending_error is Some {
                old(self).pending_error
            } else if !ok {
                Some(Error::TeardownFailed)
            } else {
                None::<Error>
            },
    {
        self.teardowns = self.teardowns + 1;
        if !ok && self.pending_error.is_none() {
            self.pending_error = Some(Error::TeardownFailed);
        }
        self.phase = SweepPhase::Flushing;
    }

    /// The accumulated records, in ascending table-index order, as handed
    /// to the export collaborator; available on every path, so partial
    /// results survive an aborted sweep.
    pub fn records(&self) -> (r: &Vec<VfRecord>)
        ensures
            r@ == self.results@,
    {
        &self.results
    }

    /// Reports the flush's result and finishes the sweep.  An export
    /// failure is recorded only when no earlier error is pending, and never
    /// masks one.
    pub fn on_flush(&mut self, ok: bool)
        requires
            old(self).wf(),
            old(self).phase is Flushing,
        ensures
            final(self).wf(),
            final(self).same_config(*old(self)),
            final(self).results@ == old(self).results@,
            final(self).phase is Finished,
            final(self).teardowns == 1,
            final(self).envelope_established,
            final(self).pending_error == if old(self).pending_error is Some {
                old(self).pending_error
            } else if !ok {
                Some(Error::ExportFailed)
            } else {
                None::<Error>
            },
    {
        if !ok && self.pending_error.is_none() {
            self.pending_error = Some(Error::ExportFailed);
        }
        self.phase = SweepPhase::Finished;
    }

    /// The sweep's outcome: `None` for a sweep that completed cleanly, or
    /// the first fatal error.
    pub fn outcome(&self) -> (r: Option<Error>)
        requires
            self.phase is Finished,
        ensures
            r == self.pending_error,
    {
        self.pending_error
    }
}

/// The safety envelope is restored exactly once per sweep that established
/// it — whether the sweep completed, covered an empty index range, or
/// aborted on an error — and a sweep whose envelope was never established
/// performs no teardown at all.
pub proof fn lemma_teardown_exactly_once(s: CurveSweep)
    requires
        s.wf(),
        s.phase is Finished,
    ensures
        s.envelope_established ==> s.teardowns == 1,
        !s.envelope_established ==> s.teardowns == 0,
{
}

/// The result set's index range is a subset of the requested index range,
/// every recorded index lies inside the table, records are strictly
/// ascending by index, and every recorded offset is a non-negative multiple
/// of the configured step.  (That the sweep also never *tests* an index
/// outside the requested range is part of [`CurveSweep::next_request`]'s
/// contract.)
pub proof fn lemma_results_within_requested_range(s: CurveSweep)
    requires
        s.wf(),
    ensures
        forall|i: int|
            0 <= i < s.results@.len() ==> s.start_index <= (#[trigger] s.results@[i]).index
                <= s.end_index,
        forall|i: int|
            0 <= i < s.results@.len() ==> (#[trigger] s.results@[i]).index < s.table@.len(),
        forall|i: int, j: int|
            0 <= i < j < s.results@.len() ==> s.results@[i].index < s.results@[j].index,
        forall|i: int|
            0 <= i < s.results@.len() ==> 0 <= (#[trigger] s.results@[i]).offset
                && s.results@[i].offset % s.options.step == 0,
{
}

} // verus!
