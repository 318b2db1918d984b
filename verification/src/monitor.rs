//! The telemetry monitor that accompanies one stability-test cycle.
//!
//! While the workload runs as an independent unit of execution, the control
//! loop polls device telemetry once per second and passes each observation
//! here.  The monitor accumulates observed limit flags, tolerates a bounded
//! run of failed telemetry queries, tracks persistent clock throttling, and
//! produces the cycle's verdict the moment the workload reports its result
//! (or the query-failure budget runs out).

use vstd::prelude::*;

use crate::limits::{classify, spec_classify, LimitFlags, TestVerdict, LIMIT_NO_LOAD};
use crate::units::MAX_KILOHERTZ;
use vstd::string::StrSliceExecFns;

verus! {

/// Consecutive failed telemetry queries after which the test is abandoned
/// and counted as failed.  Transient query errors below this budget must not
/// abort a multi-minute test.
pub const QUERY_FAILURE_LIMIT: u32 = 10;

/// Consecutive throttled clock observations beyond which the throttling
/// counts as persistent and taints an otherwise passing cycle.
pub const THROTTLE_OBSERVATION_LIMIT: u32 = 10;

/// One observation handed to the monitor by the polling loop.
#[derive(Clone, Copy, Debug)]
pub enum TelemetryEvent {
    /// The telemetry query itself failed this second.
    QueryFailed,
    /// A successful query: the limit flags and clock read from the device,
    /// and the workload's result if its one-shot completion message arrived
    /// during this poll.
    Sample { limits: LimitFlags, clock: i64, workload: Option<bool> },
}

/// Accumulated state of one test cycle's telemetry monitoring.
pub struct TestMonitor {
    /// Clock the cycle is expected to hold, in kilohertz.
    pub target_frequency: i64,
    /// Configured step size, in kilohertz: falling short of the target by
    /// more than one step counts as a throttled observation.
    pub step: i64,
    /// Consecutive failed telemetry queries; reset by any success.
    pub query_failures: u32,
    /// Consecutive throttled clock observations; reset by any observation at
    /// speed, and saturated just past the persistence limit.
    pub throttle_count: u32,
    /// Union of all limit flags observed so far, seeded with the no-load bit
    /// of the pre-test snapshot so that only conditions observed during the
    /// window survive the final subtraction of that bit.
    pub accumulated: LimitFlags,
    /// The cycle's verdict, once terminal.
    pub verdict: Option<TestVerdict>,
}

impl TestMonitor {
    /// Well-formedness: bounded configuration, and counters inside their
    /// budgets while the cycle is still running.
    pub open spec fn wf(self) -> bool {
        &&& 1 <= self.step <= MAX_KILOHERTZ
        &&& 0 <= self.target_frequency <= MAX_KILOHERTZ
        &&& self.verdict is None ==> self.query_failures < QUERY_FAILURE_LIMIT
        &&& self.query_failures <= QUERY_FAILURE_LIMIT
        &&& self.throttle_count <= THROTTLE_OBSERVATION_LIMIT + 1
    }

    /// The monitor state after consuming one observation.
    pub open spec fn spec_step(self, event: TelemetryEvent) -> TestMonitor {
        match event {
            TelemetryEvent::QueryFailed => TestMonitor {
                query_failures: (self.query_failures + 1) as u32,
                verdict: if self.query_failures + 1 >= QUERY_FAILURE_LIMIT {
                    Some(TestVerdict::LoadLimited)
                } else {
                    None
                },
                ..self
            },
            TelemetryEvent::Sample { limits, clock, workload } => {
                let accumulated = LimitFlags { bits: self.accumulated.bits | limits.bits };
                let throttled = clock < self.target_frequency - self.step;
                let throttle_count = if !throttled {
                    0u32
                } else if self.throttle_count <= THROTTLE_OBSERVATION_LIMIT {
                    (self.throttle_count + 1) as u32
                } else {
                    self.throttle_count
                };
                let verdict = match workload {
                    None => None,
                    Some(false) => Some(TestVerdict::LoadLimited),
                    Some(true) => Some(
                        if throttle_count > THROTTLE_OBSERVATION_LIMIT {
                            spec_classify(LimitFlags { bits: accumulated.bits & !LIMIT_NO_LOAD })
                        } else {
                            TestVerdict::Clean
                        },
                    ),
                };
                TestMonitor {
                    query_failures: 0,
                    throttle_count,
                    accumulated,
                    verdict,
                    ..self
                }
            },
        }
    }

    /// Starts monitoring one test cycle.  The accumulator keeps only the
    /// no-load bit of the pre-test snapshot: limiter bits that were already
    /// set while idle would otherwise be indistinguishable from ones
    /// triggered by the test.
    pub fn new(target_frequency: i64, step: i64, initial_limits: LimitFlags) -> (m: TestMonitor)
        requires
            1 <= step <= MAX_KILOHERTZ,
            0 <= target_frequency <= MAX_KILOHERTZ,
        ensures
            m.wf(),
            m.target_frequency == target_frequency,
            m.step == step,
            m.accumulated.bits == (initial_limits.bits & LIMIT_NO_LOAD),
            m.query_failures == 0,
            m.throttle_count == 0,
            m.verdict is None,
    {
        TestMonitor {
            target_frequency,
            step,
            query_failures: 0,
            throttle_count: 0,
            accumulated: initial_limits.only_no_load(),
            verdict: None,
        }
    }

    /// Consumes one observation and returns the verdict if the cycle became
    /// terminal.  The transition is exactly [`TestMonitor::spec_step`].
    pub fn on_event(&mut self, event: TelemetryEvent) -> (done: Option<TestVerdict>)
        requires
            old(self).wf(),
            old(self).verdict is None,
        ensures
            *final(self) == old(self).spec_step(event),
            final(self).wf(),
            done == final(self).verdict,
    {
        match event {
            TelemetryEvent::QueryFailed => {
                self.query_failures = self.query_failures + 1;
                if self.query_failures >= QUERY_FAILURE_LIMIT {
                    self.verdict = Some(TestVerdict::LoadLimited);
                }
            },
            TelemetryEvent::Sample { limits, clock, workload } => {
                self.accumulated = self.accumulated.union(limits);
                self.query_failures = 0;
                if clock < self.target_frequency - self.step {
                    if self.throttle_count <= THROTTLE_OBSERVATION_LIMIT {
                        self.throttle_count = self.throttle_count + 1;
                    }
                } else {
                    self.throttle_count = 0;
                }
                match workload {
                    None => {},
                    Some(false) => {
                        self.verdict = Some(TestVerdict::LoadLimited);
                    },
                    Some(true) => {
                        if self.throttle_count > THROTTLE_OBSERVATION_LIMIT {
                            self.verdict = Some(classify(self.accumulated.without_no_load()));
                        } else {
                            self.verdict = Some(TestVerdict::Clean);
                        }
                    },
                }
            },
        }
        self.verdict
    }
}

/// The verdict an interactive confirmation line denotes, by its first
/// character: `y` for a clean pass, `n` for a failed test, anything else
/// (including an empty line) denotes nothing and the prompt is repeated.
pub open spec fn spec_parse_confirmation(s: Seq<char>) -> Option<TestVerdict> {
    if s.len() > 0 && s[0] == 'y' {
        Some(TestVerdict::Clean)
    } else if s.len() > 0 && s[0] == 'n' {
        Some(TestVerdict::LoadLimited)
    } else {
        None
    }
}

/// Parses one line of the interactive stability prompt, used when no
/// workload binary is configured.
pub fn parse_confirmation(line: &str) -> (r: Option<TestVerdict>)
    ensures
        r == spec_parse_confirmation(line@),
{
    if line.unicode_len() >= 1 {
        let c = line.get_char(0);
        if c == 'y' {
            Some(TestVerdict::Clean)
        } else if c == 'n' {
            Some(TestVerdict::LoadLimited)
        } else {
            None
        }
    } else {
        None
    }
}

/// The monitor state after a run of consecutive failed telemetry queries.
pub open spec fn spec_after_query_failures(m: TestMonitor, n: nat) -> TestMonitor
    decreases n,
{
    if n == 0 {
        m
    } else {
        spec_after_query_failures(m, (n - 1) as nat).spec_step(TelemetryEvent::QueryFailed)
    }
}

proof fn lemma_query_failures_count(m: TestMonitor, k: nat)
    requires
        m.wf(),
        m.verdict is None,
        m.query_failures == 0,
        k <= QUERY_FAILURE_LIMIT,
    ensures
        spec_after_query_failures(m, k).query_failures == k,
        k < QUERY_FAILURE_LIMIT ==> spec_after_query_failures(m, k).verdict is None,
        k == QUERY_FAILURE_LIMIT ==> spec_after_query_failures(m, k).verdict == Some(
            TestVerdict::LoadLimited,
        ),
    decreases k,
{
    if k > 0 {
        lemma_query_failures_count(m, (k - 1) as nat);
    }
}

/// Query-failure tolerance: from a live monitor with no failures recorded,
/// any run of fewer than ten consecutive failed queries leaves the test
/// running, and the tenth abandons it with a load-limited verdict — an
/// eleventh is never consumed.
pub proof fn lemma_query_failure_tolerance(m: TestMonitor)
    requires
        m.wf(),
        m.verdict is None,
        m.query_failures == 0,
    ensures
        forall|k: nat|
            k < QUERY_FAILURE_LIMIT ==> #[trigger] spec_after_query_failures(m, k).verdict is None,
        spec_after_query_failures(m, QUERY_FAILURE_LIMIT as nat).verdict == Some(
            TestVerdict::LoadLimited,
        ),
{
    assert forall|k: nat|
        k < QUERY_FAILURE_LIMIT implies #[trigger] spec_after_query_failures(
        m,
        k,
    ).verdict is None by {
        lemma_query_failures_count(m, k);
    }
    lemma_query_failures_count(m, QUERY_FAILURE_LIMIT as nat);
}

} // verus!
