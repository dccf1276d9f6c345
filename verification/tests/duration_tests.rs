use vanity_search::duration::split_duration;

#[test]
fn split_zero() {
    let r = split_duration(0);
    assert_eq!((r.days, r.hours, r.minutes, r.seconds), (0, 0, 0, 0));
}

#[test]
fn split_just_seconds() {
    let r = split_duration(59);
    assert_eq!((r.days, r.hours, r.minutes, r.seconds), (0, 0, 0, 59));
}

#[test]
fn split_unit_boundaries() {
    let r = split_duration(60);
    assert_eq!((r.days, r.hours, r.minutes, r.seconds), (0, 0, 1, 0));
    let r = split_duration(3600);
    assert_eq!((r.days, r.hours, r.minutes, r.seconds), (0, 1, 0, 0));
    let r = split_duration(86400);
    assert_eq!((r.days, r.hours, r.minutes, r.seconds), (1, 0, 0, 0));
}

#[test]
fn split_mixed_duration() {
    // One day, one hour, one minute, one second.
    let r = split_duration(90_061);
    assert_eq!((r.days, r.hours, r.minutes, r.seconds), (1, 1, 1, 1));
}

#[test]
fn split_day_boundary_minus_one() {
    let r = split_duration(86_399);
    assert_eq!((r.days, r.hours, r.minutes, r.seconds), (0, 23, 59, 59));
}

#[test]
fn split_parts_add_back_up() {
    for t in [1u64, 61, 3661, 90_061, 123_456_789] {
        let r = split_duration(t);
        assert_eq!(r.days * 86_400 + r.hours * 3_600 + r.minutes * 60 + r.seconds, t);
        assert!(r.hours < 24 && r.minutes < 60 && r.seconds < 60);
    }
}
