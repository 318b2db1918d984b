use newclock::voltage::{
    boost_escalation_allowed, voltage_reached, VoltageWait, WaitOutcome, FULL_BOOST_PERCENT,
};

#[test]
fn exact_voltage_match_is_reached() {
    assert!(voltage_reached(800_000, 1_000_000, 800_000, 2_000_000));
}

#[test]
fn equivalent_operating_point_is_reached() {
    // At or above the target frequency on a lower voltage counts as reached.
    assert!(voltage_reached(750_000, 2_000_000, 800_000, 2_000_000));
    assert!(voltage_reached(750_000, 2_100_000, 800_000, 2_000_000));
}

#[test]
fn lower_voltage_and_frequency_is_not_reached() {
    assert!(!voltage_reached(750_000, 1_900_000, 800_000, 2_000_000));
}

#[test]
fn higher_voltage_is_not_reached() {
    // Sitting above the target voltage at speed is not the requested point.
    assert!(!voltage_reached(850_000, 2_100_000, 800_000, 2_000_000));
}

#[test]
fn two_second_timeout_allows_two_polls() {
    let mut w = VoltageWait::new(2);
    assert!(!w.expired());
    assert_eq!(w.poll(700_000, 1_000_000, 800_000, 2_000_000), WaitOutcome::Waiting);
    assert_eq!(w.poll(700_000, 1_000_000, 800_000, 2_000_000), WaitOutcome::TimedOut);
    assert!(w.expired());
}

#[test]
fn reached_stops_the_countdown() {
    let mut w = VoltageWait::new(2);
    assert_eq!(w.poll(800_000, 1_000_000, 800_000, 2_000_000), WaitOutcome::Reached);
    assert!(!w.expired());
}

#[test]
fn zero_timeout_is_expired_from_the_start() {
    let w = VoltageWait::new(0);
    assert!(w.expired());
}

#[test]
fn boost_escalation_only_below_full_and_without_override() {
    assert!(boost_escalation_allowed(false, 0));
    assert!(boost_escalation_allowed(false, FULL_BOOST_PERCENT - 1));
    assert!(!boost_escalation_allowed(false, FULL_BOOST_PERCENT));
    assert!(!boost_escalation_allowed(true, 0));
}
