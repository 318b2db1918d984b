use newclock::limits::{LimitFlags, TestVerdict, LIMIT_THERMAL};
use newclock::search::{PointAction, PointResult, PointSearch};

/// Drives one point search to completion with the voltage always confirmed
/// and every cycle answered by `verdicts` in order (the last verdict
/// repeats).  Returns the result and how many test cycles ran.
fn drive(mut search: PointSearch, verdicts: &[TestVerdict]) -> (Option<PointResult>, usize) {
    let mut cycles = 0;
    loop {
        match search.on_voltage_confirmed(true) {
            PointAction::RunTest { .. } => {}
            other => panic!("unexpected action {:?}", other),
        }
        let i = if cycles < verdicts.len() { cycles } else { verdicts.len() - 1 };
        let action = search.on_verdict(verdicts[i]);
        cycles += 1;
        match action {
            PointAction::ConfirmVoltage { .. } => continue,
            PointAction::Accept { .. } => break,
            other => panic!("unexpected action {:?}", other),
        }
    }
    (search.result(), cycles)
}

#[test]
fn clean_ascent_stops_at_the_frequency_ceiling() {
    // From offset 0 at base 1,950,000 kHz with step 16,000 kHz and a
    // 2,200,000 kHz maximum, the ascent passes 0, 16,000, ... and accepts
    // 240,000 — the largest step multiple keeping base+offset at or below
    // the maximum.
    let s = PointSearch::new(850_000, 1_950_000, 0, 16_000, 2_200_000, false);
    let (result, cycles) = drive(s, &[TestVerdict::Clean]);
    assert_eq!(result, Some(PointResult { offset: 240_000, frequency: 2_190_000 }));
    assert_eq!(cycles, 16);
}

#[test]
fn first_cycle_failure_steps_back_three_and_clamps_at_zero() {
    // A load-limited verdict on the very first cycle steps back three full
    // steps from the attempted offset; from 0 that clamps at the zero floor.
    let s = PointSearch::new(700_000, 1_800_000, 0, 16_000, 2_200_000, false);
    let (result, cycles) = drive(s, &[TestVerdict::LoadLimited]);
    assert_eq!(result, Some(PointResult { offset: 0, frequency: 1_800_000 }));
    assert_eq!(cycles, 1);
}

#[test]
fn load_limited_steps_back_three_steps() {
    // Four clean cycles raise the offset from 96,000 to 160,000; the
    // load-limited fifth cycle steps 48,000 back from the failed 160,000.
    let s = PointSearch::new(700_000, 1_800_000, 100_000, 16_000, 2_200_000, false);
    let verdicts = [
        TestVerdict::Clean,
        TestVerdict::Clean,
        TestVerdict::Clean,
        TestVerdict::Clean,
        TestVerdict::LoadLimited,
    ];
    let (result, cycles) = drive(s, &verdicts);
    assert_eq!(result, Some(PointResult { offset: 112_000, frequency: 1_912_000 }));
    assert_eq!(cycles, 5);
}

#[test]
fn other_limit_steps_back_one_step() {
    let s = PointSearch::new(700_000, 1_800_000, 100_000, 16_000, 2_200_000, false);
    let verdicts = [TestVerdict::OtherLimited(LimitFlags { bits: LIMIT_THERMAL })];
    let (result, cycles) = drive(s, &verdicts);
    // 100,000 aligns down to 96,000; one step back gives 80,000.
    assert_eq!(result, Some(PointResult { offset: 80_000, frequency: 1_880_000 }));
    assert_eq!(cycles, 1);
}

#[test]
fn starting_offset_is_clamped_and_aligned() {
    let s = PointSearch::new(700_000, 1_800_000, -32_000, 16_000, 2_200_000, false);
    assert_eq!(s.offset, 0);
    let s = PointSearch::new(700_000, 1_800_000, 50_000, 16_000, 2_200_000, false);
    assert_eq!(s.offset, 48_000);
    // A start past the ceiling is capped at it.
    let s = PointSearch::new(700_000, 2_190_000, 50_000, 16_000, 2_200_000, false);
    assert_eq!(s.offset, 0);
    assert_eq!(s.offset_limit, 0);
}

#[test]
fn unreachable_voltage_skips_the_point() {
    // No boost left: a single failed confirmation skips the point.
    let mut s = PointSearch::new(850_000, 1_950_000, 0, 16_000, 2_200_000, false);
    match s.on_voltage_confirmed(false) {
        PointAction::Skip => {}
        other => panic!("unexpected action {:?}", other),
    }
    assert!(s.is_done());
    assert_eq!(s.result(), None);
}

#[test]
fn boost_is_spent_before_skipping() {
    let mut s = PointSearch::new(850_000, 1_950_000, 0, 16_000, 2_200_000, true);
    match s.on_voltage_confirmed(false) {
        PointAction::BoostAndConfirm { voltage, .. } => assert_eq!(voltage, 850_000),
        other => panic!("unexpected action {:?}", other),
    }
    assert!(!s.is_done());
    match s.on_voltage_confirmed(false) {
        PointAction::Skip => {}
        other => panic!("unexpected action {:?}", other),
    }
    assert_eq!(s.result(), None);
}

#[test]
fn boosted_confirmation_still_tests() {
    let mut s = PointSearch::new(850_000, 1_950_000, 0, 16_000, 2_200_000, true);
    match s.on_voltage_confirmed(false) {
        PointAction::BoostAndConfirm { .. } => {}
        other => panic!("unexpected action {:?}", other),
    }
    match s.on_voltage_confirmed(true) {
        PointAction::RunTest { offset, frequency } => {
            assert_eq!(offset, 0);
            assert_eq!(frequency, 1_950_000);
        }
        other => panic!("unexpected action {:?}", other),
    }
}

#[test]
fn accepted_offsets_are_step_multiples() {
    let s = PointSearch::new(700_000, 1_800_000, 123_456, 12_345, 2_000_000, false);
    let (result, _) = drive(s, &[TestVerdict::Clean, TestVerdict::LoadLimited]);
    let r = result.unwrap();
    assert!(r.offset >= 0);
    assert_eq!(r.offset % 12_345, 0);
    assert_eq!(r.frequency, 1_800_000 + r.offset);
}
