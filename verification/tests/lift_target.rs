use rambots::subsystems::lift::target::{clamp_height, LiftTarget};

#[test]
fn clamp_into_limits() {
    assert_eq!(clamp_height(5, 0, 10), 5);
    assert_eq!(clamp_height(-5, 0, 10), 0);
    assert_eq!(clamp_height(50, 0, 10), 10);
}

#[test]
fn go_to_clamps_to_soft_limits() {
    let mut t = LiftTarget::new(300).with_min_height(10);
    assert_eq!(t.target(), 0);
    t.go_to(500);
    assert_eq!(t.target(), 300);
    t.go_to(-4);
    assert_eq!(t.target(), 10);
    t.go_to(150);
    assert_eq!(t.target(), 150);
    let mut u = t.with_max_height(100);
    u.go_to(150);
    assert_eq!(u.target(), 100);
}

#[test]
fn rotary_limits_and_reachability() {
    let t = LiftTarget::new(i64::MAX).with_min_height(-60);
    assert_eq!(t.limits_within(Some(-20), Some(180)), (-20, 180));
    assert_eq!(t.limits_within(Some(-90), None), (-60, i64::MAX));
    let mut u = t;
    u.go_to_reachable(120, true, 180);
    assert_eq!(u.target(), 120);
    u.go_to_reachable(120, false, 180);
    assert_eq!(u.target(), 180);
}

#[test]
fn hold_and_zero() {
    let t = LiftTarget::new(100);
    assert!(t.drives_motors(true));
    assert!(t.drives_motors(false));
    let mut c = t.with_hold_position(false);
    assert!(!c.drives_motors(true));
    assert!(c.drives_motors(false));
    c.go_to(40);
    c.zero(7);
    assert_eq!(c.target(), 7);
}
