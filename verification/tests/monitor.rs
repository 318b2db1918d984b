use newclock::limits::{LimitFlags, TestVerdict, LIMIT_NO_LOAD, LIMIT_THERMAL};
use newclock::monitor::{parse_confirmation, TelemetryEvent, TestMonitor};

fn fresh_monitor() -> TestMonitor {
    TestMonitor::new(2_000_000, 16_000, LimitFlags { bits: 0 })
}

fn good_sample(workload: Option<bool>) -> TelemetryEvent {
    TelemetryEvent::Sample { limits: LimitFlags { bits: 0 }, clock: 2_000_000, workload }
}

#[test]
fn ten_consecutive_query_failures_abandon_the_test() {
    let mut m = fresh_monitor();
    for _ in 0..9 {
        assert_eq!(m.on_event(TelemetryEvent::QueryFailed), None);
    }
    // The tenth consecutive failure abandons the test; an eleventh is never
    // consumed because the cycle is already terminal.
    assert_eq!(m.on_event(TelemetryEvent::QueryFailed), Some(TestVerdict::LoadLimited));
}

#[test]
fn query_failure_count_resets_on_success() {
    let mut m = fresh_monitor();
    for _ in 0..9 {
        assert_eq!(m.on_event(TelemetryEvent::QueryFailed), None);
    }
    assert_eq!(m.on_event(good_sample(None)), None);
    for _ in 0..9 {
        assert_eq!(m.on_event(TelemetryEvent::QueryFailed), None);
    }
    assert_eq!(m.on_event(TelemetryEvent::QueryFailed), Some(TestVerdict::LoadLimited));
}

#[test]
fn workload_pass_with_stable_clocks_is_clean() {
    let mut m = fresh_monitor();
    for _ in 0..5 {
        assert_eq!(m.on_event(good_sample(None)), None);
    }
    assert_eq!(m.on_event(good_sample(Some(true))), Some(TestVerdict::Clean));
}

#[test]
fn workload_failure_is_load_limited_regardless_of_flags() {
    let mut m = fresh_monitor();
    let event = TelemetryEvent::Sample {
        limits: LimitFlags { bits: LIMIT_THERMAL },
        clock: 2_000_000,
        workload: Some(false),
    };
    assert_eq!(m.on_event(event), Some(TestVerdict::LoadLimited));
}

#[test]
fn falling_one_step_short_is_not_throttling() {
    let mut m = fresh_monitor();
    // One step below target is within tolerance; only more than one step
    // short counts as a throttled observation.
    let event = TelemetryEvent::Sample {
        limits: LimitFlags { bits: 0 },
        clock: 1_984_000,
        workload: Some(true),
    };
    assert_eq!(m.on_event(event), Some(TestVerdict::Clean));
}

#[test]
fn persistent_throttling_taints_a_pass_with_observed_flags() {
    let mut m = fresh_monitor();
    let throttled = TelemetryEvent::Sample {
        limits: LimitFlags { bits: LIMIT_THERMAL },
        clock: 1_900_000,
        workload: None,
    };
    for _ in 0..11 {
        assert_eq!(m.on_event(throttled), None);
    }
    let finish = TelemetryEvent::Sample {
        limits: LimitFlags { bits: LIMIT_THERMAL },
        clock: 1_900_000,
        workload: Some(true),
    };
    assert_eq!(
        m.on_event(finish),
        Some(TestVerdict::OtherLimited(LimitFlags { bits: LIMIT_THERMAL }))
    );
}

#[test]
fn throttling_below_persistence_threshold_stays_clean() {
    let mut m = fresh_monitor();
    let throttled = TelemetryEvent::Sample {
        limits: LimitFlags { bits: 0 },
        clock: 1_900_000,
        workload: None,
    };
    for _ in 0..10 {
        assert_eq!(m.on_event(throttled), None);
    }
    // Ten consecutive throttled observations are still within tolerance.
    assert_eq!(m.on_event(good_sample(Some(true))), Some(TestVerdict::Clean));
}

#[test]
fn throttle_count_resets_on_an_observation_at_speed() {
    let mut m = fresh_monitor();
    let throttled = TelemetryEvent::Sample {
        limits: LimitFlags { bits: 0 },
        clock: 1_900_000,
        workload: None,
    };
    for _ in 0..10 {
        assert_eq!(m.on_event(throttled), None);
    }
    assert_eq!(m.on_event(good_sample(None)), None);
    for _ in 0..10 {
        assert_eq!(m.on_event(throttled), None);
    }
    assert_eq!(m.on_event(good_sample(Some(true))), Some(TestVerdict::Clean));
}

#[test]
fn pre_test_limiter_bits_do_not_count() {
    // Limiter bits already set before the test are masked out by the
    // accumulator seeding: a persistently throttled pass with nothing newly
    // observed classifies as clean.
    let mut m = TestMonitor::new(2_000_000, 16_000, LimitFlags { bits: LIMIT_THERMAL | LIMIT_NO_LOAD });
    let throttled = TelemetryEvent::Sample {
        limits: LimitFlags { bits: LIMIT_NO_LOAD },
        clock: 1_000_000,
        workload: None,
    };
    for _ in 0..11 {
        assert_eq!(m.on_event(throttled), None);
    }
    let finish = TelemetryEvent::Sample {
        limits: LimitFlags { bits: LIMIT_NO_LOAD },
        clock: 1_000_000,
        workload: Some(true),
    };
    assert_eq!(m.on_event(finish), Some(TestVerdict::Clean));
}

#[test]
fn confirmation_first_character_decides() {
    assert_eq!(parse_confirmation("y\n"), Some(TestVerdict::Clean));
    assert_eq!(parse_confirmation("yes"), Some(TestVerdict::Clean));
    assert_eq!(parse_confirmation("n\n"), Some(TestVerdict::LoadLimited));
    assert_eq!(parse_confirmation("maybe"), None);
    assert_eq!(parse_confirmation(""), None);
}
