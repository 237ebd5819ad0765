use streamcast::error::ErrorKind;
use streamcast::timebase::{rescale, rescale_ts, TimeBase};

fn tb(num: i32, den: i32) -> TimeBase {
    TimeBase::new(num, den).unwrap()
}

#[test]
fn time_base_needs_positive_parts() {
    assert!(TimeBase::new(1, 44100).is_some());
    assert!(TimeBase::new(0, 1).is_none());
    assert!(TimeBase::new(1, 0).is_none());
    assert!(TimeBase::new(-1, 25).is_none());
    assert!(TimeBase::new(1, -25).is_none());
    let t = tb(1, 44100);
    assert_eq!(t.num(), 1);
    assert_eq!(t.den(), 44100);
}

#[test]
fn rescale_to_a_finer_base_multiplies() {
    assert_eq!(rescale(3, &tb(1, 1000), &tb(1, 90000)), Some(270));
    assert_eq!(rescale(-3, &tb(1, 1000), &tb(1, 90000)), Some(-270));
}

#[test]
fn rescale_rounds_to_nearest() {
    // 22 units of 1/44100 s are 0.4988.. ms, 23 units are 0.5215.. ms
    assert_eq!(rescale(22, &tb(1, 44100), &tb(1, 1000)), Some(0));
    assert_eq!(rescale(23, &tb(1, 44100), &tb(1, 1000)), Some(1));
    assert_eq!(rescale(-23, &tb(1, 44100), &tb(1, 1000)), Some(-1));
}

#[test]
fn rescale_ties_go_to_even() {
    assert_eq!(rescale(1, &tb(1, 2), &tb(1, 1)), Some(0));
    assert_eq!(rescale(3, &tb(1, 2), &tb(1, 1)), Some(2));
    assert_eq!(rescale(5, &tb(1, 2), &tb(1, 1)), Some(2));
    assert_eq!(rescale(-1, &tb(1, 2), &tb(1, 1)), Some(0));
    assert_eq!(rescale(-3, &tb(1, 2), &tb(1, 1)), Some(-2));
}

#[test]
fn rescale_reports_values_out_of_range() {
    assert_eq!(rescale(i64::MAX, &tb(2, 1), &tb(1, 1)), None);
    assert_eq!(rescale(i64::MIN, &tb(2, 1), &tb(1, 1)), None);
    assert_eq!(rescale(i64::MIN, &tb(1, 1), &tb(1, 1)), Some(i64::MIN));
    assert_eq!(rescale(i64::MAX, &tb(1, 1), &tb(1, 1)), Some(i64::MAX));
    assert_eq!(rescale(i64::MAX, &tb(i32::MAX, 1), &tb(1, i32::MAX)), None);
}

#[test]
fn rescale_to_the_same_base_is_idempotent() {
    let a = tb(1, 44100);
    let b = tb(1, 48000);
    let once = rescale(12345, &a, &b).unwrap();
    assert_eq!(rescale(once, &b, &b), Some(once));
    assert_eq!(rescale(once, &b, &tb(2, 96000)), Some(once));
    assert!(b.same_as(&tb(2, 96000)));
    assert!(!a.same_as(&b));
}

#[test]
fn rescale_keeps_order() {
    let a = tb(1, 44100);
    let b = tb(1, 1000);
    let mut last = rescale(-5000, &a, &b).unwrap();
    let mut t = -5000;
    while t < 5000 {
        let next = rescale(t, &a, &b).unwrap();
        assert!(last <= next);
        last = next;
        t += 7;
    }
}

#[test]
fn round_trip_through_a_finer_base_is_exact() {
    let a = tb(1, 44100);
    let b = tb(1, 90000);
    let mut t = -2000;
    while t < 2000 {
        let there = rescale(t, &a, &b).unwrap();
        assert_eq!(rescale(there, &b, &a), Some(t));
        t += 1;
    }
    // a unit of 1/1000 s is exactly 90 units of 1/90000 s
    let ms = tb(1, 1000);
    assert_eq!(rescale(rescale(17, &ms, &b).unwrap(), &b, &ms), Some(17));
}

#[test]
fn round_trip_through_a_coarser_base_may_move() {
    let a = tb(1, 44100);
    let ms = tb(1, 1000);
    let there = rescale(22, &a, &ms).unwrap();
    assert_eq!(there, 0);
    assert_eq!(rescale(there, &ms, &a), Some(0));
    // 441 units are exactly 10 ms: nothing is lost
    assert_eq!(rescale(rescale(441, &a, &ms).unwrap(), &ms, &a), Some(441));
}

#[test]
fn missing_timestamps_stay_missing() {
    let a = tb(1, 44100);
    let b = tb(1, 1000);
    assert_eq!(rescale_ts(None, &a, &b), None);
    assert_eq!(rescale_ts(Some(44100), &a, &b), Some(1000));
    assert_eq!(rescale_ts(Some(i64::MAX), &tb(2, 1), &tb(1, 1)), None);
}

#[test]
fn a_reported_time_base_must_be_positive() {
    let ok = TimeBase::reported(1, 90000, ErrorKind::Mux).unwrap();
    assert_eq!((ok.num(), ok.den()), (1, 90000));
    for (num, den) in [(0, 1), (1, 0), (-1, 1), (1, -1), (0, 0)].iter() {
        let e = TimeBase::reported(*num, *den, ErrorKind::Mux).unwrap_err();
        assert_eq!(e.kind, ErrorKind::Mux);
        assert_eq!(e.cause, "the time base is not positive");
    }
    let e = TimeBase::reported(0, 1, ErrorKind::DecoderInit).unwrap_err();
    assert_eq!(e.kind, ErrorKind::DecoderInit);
}
