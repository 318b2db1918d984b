use newclock::limits::{
    classify, LimitFlags, TestVerdict, LIMIT_NO_LOAD, LIMIT_POWER, LIMIT_THERMAL,
};

#[test]
fn classify_empty_is_clean() {
    assert_eq!(classify(LimitFlags { bits: 0 }), TestVerdict::Clean);
}

#[test]
fn classify_no_load_alone_is_load_limited() {
    assert_eq!(classify(LimitFlags { bits: LIMIT_NO_LOAD }), TestVerdict::LoadLimited);
}

#[test]
fn classify_other_flags_name_the_limiter() {
    let flags = LimitFlags { bits: LIMIT_THERMAL | LIMIT_POWER };
    assert_eq!(classify(flags), TestVerdict::OtherLimited(flags));
}

#[test]
fn classify_no_load_with_company_is_other_limited() {
    let flags = LimitFlags { bits: LIMIT_NO_LOAD | LIMIT_THERMAL };
    assert_eq!(classify(flags), TestVerdict::OtherLimited(flags));
}

#[test]
fn flag_operations() {
    let a = LimitFlags { bits: LIMIT_NO_LOAD | LIMIT_POWER };
    assert!(!a.is_empty());
    assert!(LimitFlags::empty().is_empty());
    assert_eq!(a.union(LimitFlags { bits: LIMIT_THERMAL }).bits, LIMIT_NO_LOAD | LIMIT_POWER | LIMIT_THERMAL);
    assert_eq!(a.only_no_load().bits, LIMIT_NO_LOAD);
    assert_eq!(a.without_no_load().bits, LIMIT_POWER);
}
