use rambots::auton::{Action, Route};
use rambots::auton::timer::{timer_expired, timer_remaining};

fn skills() -> Route<f64> {
    Route::new("skills")
        .then(Action::intake_for(400))
        .then(Action::drive_forward(600.0, 0.75, 3000))
        .then(Action::turn_to_heading(90.0, 1500))
        .then(Action::drive_forward(300.0, 0.6, 2000))
        .then(Action::intake_for(600))
        .then(Action::drive_backward(300.0, 0.6, 2000))
        .then(Action::turn_to_heading(0.0, 1500))
        .then(Action::drive_forward(800.0, 0.8, 3500))
        .then(Action::lift_to(2000.0, 2000))
        .then(Action::outtake_for(500))
        .then(Action::lift_to(0.0, 2000))
}

#[test]
fn route_builds_in_order() {
    let r = skills();
    assert_eq!(r.name, "skills");
    assert_eq!(r.len(), 11);
    assert!(!r.is_empty());
    assert!(matches!(r.actions[0], Action::IntakeFor { duration_ms: 400 }));
    assert!(Route::<f64>::new("empty").is_empty());
}

#[test]
fn skills_route_wait_plan() {
    let plan = skills().sleep_plan();
    assert_eq!(plan, vec![400, 3000, 1500, 2000, 600, 2000, 1500, 3000, 2000, 500, 2000]);
}

#[test]
fn left_qual_route() {
    let r: Route<f64> = Route::new("left-qual")
        .then(Action::intake_for(300))
        .then(Action::drive_forward(400.0, 0.7, 2000))
        .then(Action::turn_to_heading(45.0, 1500))
        .then(Action::drive_forward(300.0, 0.65, 2000))
        .then(Action::outtake_for(400));
    assert_eq!(r.len(), 5);
    assert_eq!(r.sleep_plan(), vec![300, 2000, 1500, 2000, 400]);
}

#[test]
fn turn_and_drive_waits_are_capped() {
    let r: Route<f64> = Route::new("caps")
        .then(Action::turn_by_angle(10.0, 9000))
        .then(Action::drive_backward(1.0, 1.0, 9000))
        .then(Action::lift_to(5.0, 100))
        .then(Action::wait(7));
    assert_eq!(r.sleep_plan(), vec![2000, 3000, 100, 7]);
}

#[test]
fn sequence_runs_inline_and_combinators_wait_for_their_branches() {
    let inner = vec![Action::wait(5), Action::intake_for(6)];
    let r: Route<f64> = Route::new("nested")
        .then(Action::wait(1))
        .then(Action::sequence(inner))
        .then(Action::ClawOpen)
        .then(Action::intake_for(300).race_with(Action::wait(400)))
        .then(Action::wait(2).parallel_with(Action::wait(3)))
        .then(Action::SolenoidToggle { id: 2 })
        .then(Action::wait(9));
    assert_eq!(r.sleep_plan(), vec![1, 5, 6, 300, 3, 9]);
}

#[test]
fn then_all_appends_in_order() {
    let r: Route<f64> = Route::new("x").then(Action::wait(1)).then_all(vec![Action::wait(2), Action::wait(3)]);
    assert_eq!(r.len(), 3);
    assert_eq!(r.sleep_plan(), vec![1, 2, 3]);
}

#[test]
fn combinators_wrap_both_actions() {
    let a: Action<f64> = Action::intake_for(300).race_with(Action::wait(400));
    match a {
        Action::Race(x, y) => {
            assert!(matches!(*x, Action::IntakeFor { duration_ms: 300 }));
            assert!(matches!(*y, Action::Wait { duration_ms: 400 }));
        }
        _ => panic!("expected a race"),
    }
    let b: Action<f64> = Action::drive_forward(1.0, 0.5, 10).parallel_with(Action::ClawClose);
    assert!(matches!(b, Action::Parallel(_, _)));
    match Action::<f64>::turn_to_heading(90.0, 1500) {
        Action::TurnToHeading { heading_deg, timeout_ms } => {
            assert_eq!(heading_deg, 90.0);
            assert_eq!(timeout_ms, 1500);
        }
        _ => panic!("expected a turn"),
    }
}

#[test]
fn timer_expiry_and_remaining() {
    assert!(!timer_expired(999, 1000));
    assert!(timer_expired(1000, 1000));
    assert!(timer_expired(5000, 1000));
    assert_eq!(timer_remaining(250, 1000), 750);
    assert_eq!(timer_remaining(1000, 1000), 0);
    assert_eq!(timer_remaining(4000, 1000), 0);
}

#[test]
fn parallel_waits_for_longer_race_for_shorter_branch() {
    let r: Route<f64> = Route::new("r").then(Action::wait(100).parallel_with(Action::wait(200)));
    assert_eq!(r.sleep_plan(), vec![200]);
    let q: Route<f64> = Route::new("q").then(Action::wait(100).race_with(Action::wait(200)));
    assert_eq!(q.sleep_plan(), vec![100]);
    let nested: Route<f64> = Route::new("n").then(
        Action::sequence(vec![Action::wait(50), Action::turn_by_angle(1.0, 5000)])
            .parallel_with(Action::ClawOpen),
    );
    assert_eq!(nested.sleep_plan(), vec![2050]);
    let huge: Route<f64> = Route::new("h").then(
        Action::sequence(vec![Action::wait(u64::MAX), Action::wait(5)]).parallel_with(Action::wait(1)),
    );
    assert_eq!(huge.sleep_plan(), vec![u64::MAX]);
}
