use rambots::motion::cartesian_drive::DriveSettling;

#[test]
fn settling_flags_are_sticky() {
    let mut s = DriveSettling::new();
    assert!(!s.step(true, false, 10, None));
    assert!(!s.step(false, false, 20, None));
    assert!(s.step(false, true, 30, None));
}

#[test]
fn settling_times_out_strictly_after_timeout() {
    let mut s = DriveSettling::new();
    assert!(!s.step(false, false, 1000, Some(1000)));
    assert!(s.step(false, false, 1001, Some(1000)));
    let mut t = DriveSettling::new();
    assert!(!t.step(false, true, u128::MAX, None));
}
