use rambots::hardware::pneumatics::Solenoid;
use rambots::subsystems::claw::Claw;
use rambots::motion::distance_sensor::{poll_distance, DistanceOp};
use rambots::localization::rng::XorShift64;
use rambots::localization::fusion::SensorObs;
use rambots::localization::ekf::SensorDir;
use rambots::logger::RobotLogger;
use rambots::subsystems::lift::sensor::MotorEncoder;
use rambots::subsystems::lift::motor_sensor::{AveragedMotorSensor, MotorIndex};
use rambots::subsystems::lift::{cascade, dr4b};

#[test]
fn claw_open_close_toggle() {
    let mut c = Claw::new(Solenoid::new());
    assert!(!c.is_closed());
    c.close();
    assert!(c.is_closed());
    c.toggle();
    assert!(!c.is_closed());
    c.toggle();
    assert!(c.is_closed());
    c.open();
    assert!(!c.is_closed());
}

#[test]
fn solenoid_states() {
    let mut s = Solenoid::new();
    assert!(!s.is_extended());
    s.extend();
    assert!(s.is_extended());
    s.retract();
    assert!(!s.is_extended());
    s.toggle();
    assert!(s.is_extended());
    let mut pre = Solenoid::new();
    pre.extend();
    assert!(Claw::new(pre).is_closed());
}

#[test]
fn distance_wait_decisions() {
    assert!(poll_distance(DistanceOp::LessThan, 100, Some(99)));
    assert!(!poll_distance(DistanceOp::LessThan, 100, Some(100)));
    assert!(poll_distance(DistanceOp::GreaterThan, 100, Some(101)));
    assert!(!poll_distance(DistanceOp::GreaterThan, 100, Some(100)));
    assert!(!poll_distance(DistanceOp::LessThan, 100, None));
    assert!(DistanceOp::LessThan.satisfied(3, 4));
    assert_ne!(DistanceOp::LessThan, DistanceOp::GreaterThan);
}

#[test]
fn xorshift_sequence_from_particle_filter_seed() {
    let mut g = XorShift64::new(12345678);
    assert_eq!(g.next_u64(), 13307452440480268);
    assert_eq!(g.next_mantissa(), 8466335060448532);
    assert_eq!(g.next_u64(), 6246390987246991192);
    let mut z = XorShift64::new(0);
    assert_eq!(z.next_u64(), 0);
}

#[test]
fn observation_count() {
    let mut o: SensorObs<f64> = SensorObs::default();
    assert_eq!(o.valid_distance_count(), 0);
    o.north_in = Some(10.0);
    o.west_in = Some(3.0);
    o.imu_heading_rad = Some(0.5);
    assert_eq!(o.valid_distance_count(), 2);
    assert_ne!(SensorDir::North, SensorDir::South);
}

#[test]
fn logger_prefix_parts() {
    assert_eq!(RobotLogger::uptime_stamp(125, 48), (2, 5, 48));
    assert_eq!(RobotLogger::level_colour(1), "\x1B[31m");
    assert_eq!(RobotLogger::level_colour(3), "\x1B[34m");
    assert_eq!(RobotLogger::level_colour(5), "\x1B[37m");
    assert_eq!(RobotLogger::level_colour(0), "");
}

#[test]
fn encoder_selection() {
    let e = MotorEncoder::new(3);
    assert_eq!(e.motor_index(), 3);
    let i = MotorIndex(2);
    assert_eq!(i.0, 2);
    let _avg = AveragedMotorSensor;
    assert_eq!(cascade::NullSensor.position_degrees::<f64>(), None);
    assert_eq!(dr4b::NullSensor.position_degrees::<f64>(), None);
}
