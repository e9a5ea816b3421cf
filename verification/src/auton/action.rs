//! Autonomous action primitives.
//!
//! An [`Action`] is a value that describes a single step in an autonomous
//! route. Distances, powers, headings and lift positions are carried as the
//! payload type `N` (the robot uses its measurement type); the library never
//! computes on them. Durations and timeouts are whole milliseconds.

use vstd::prelude::*;

verus! {

/// Autonomous action primitive.
///
/// Construct using the associated builder methods (e.g.
/// [`Action::drive_forward`]) rather than the variants directly.
#[derive(Debug)]
pub enum Action<N> {
    /// Drive straight for `distance_mm` millimetres at `power` (0-1).
    DriveForward { distance_mm: N, power: N, timeout_ms: u64 },
    /// Drive straight backwards for `distance_mm` millimetres at `power`.
    DriveBackward { distance_mm: N, power: N, timeout_ms: u64 },
    /// Turn to an absolute field heading in degrees.
    TurnToHeading { heading_deg: N, timeout_ms: u64 },
    /// Turn by a relative angle in degrees (positive = clockwise).
    TurnByAngle { angle_deg: N, timeout_ms: u64 },
    IntakeFor { duration_ms: u64 },
    OuttakeFor { duration_ms: u64 },
    IntakeStart,
    IntakeStop,
    OuttakeStart,
    /// Move lift to `ticks` encoder position and wait until settled (or timeout).
    LiftTo { ticks: N, timeout_ms: u64 },
    ClawOpen,
    ClawClose,
    ClawToggle,
    SolenoidExtend { id: u8 },
    SolenoidRetract { id: u8 },
    SolenoidToggle { id: u8 },
    Wait { duration_ms: u64 },
    /// Run all actions sequentially.
    Sequence(Vec<Action<N>>),
    /// Run two actions concurrently; finish when both complete.
    Parallel(Box<Action<N>>, Box<Action<N>>),
    /// Run two actions concurrently; finish when the first completes.
    Race(Box<Action<N>>, Box<Action<N>>),
}

impl<N> Action<N> {
    pub fn drive_forward(distance_mm: N, power: N, timeout_ms: u64) -> (a: Self)
        ensures
            a == (Action::DriveForward { distance_mm, power, timeout_ms }),
    {
        Action::DriveForward { distance_mm, power, timeout_ms }
    }

    pub fn drive_backward(distance_mm: N, power: N, timeout_ms: u64) -> (a: Self)
        ensures
            a == (Action::DriveBackward { distance_mm, power, timeout_ms }),
    {
        Action::DriveBackward { distance_mm, power, timeout_ms }
    }

    pub fn turn_to_heading(heading_deg: N, timeout_ms: u64) -> (a: Self)
        ensures
            a == (Action::TurnToHeading { heading_deg, timeout_ms }),
    {
        Action::TurnToHeading { heading_deg, timeout_ms }
    }

    pub fn turn_by_angle(angle_deg: N, timeout_ms: u64) -> (a: Self)
        ensures
            a == (Action::TurnByAngle { angle_deg, timeout_ms }),
    {
        Action::TurnByAngle { angle_deg, timeout_ms }
    }

    pub fn intake_for(duration_ms: u64) -> (a: Self)
        ensures
            a == (Action::<N>::IntakeFor { duration_ms }),
    {
        Action::IntakeFor { duration_ms }
    }

    pub fn outtake_for(duration_ms: u64) -> (a: Self)
        ensures
            a == (Action::<N>::OuttakeFor { duration_ms }),
    {
        Action::OuttakeFor { duration_ms }
    }

    pub fn lift_to(ticks: N, timeout_ms: u64) -> (a: Self)
        ensures
            a == (Action::LiftTo { ticks, timeout_ms }),
    {
        Action::LiftTo { ticks, timeout_ms }
    }

    pub fn wait(duration_ms: u64) -> (a: Self)
        ensures
            a == (Action::<N>::Wait { duration_ms }),
    {
        Action::Wait { duration_ms }
    }

    /// Chain actions into a [`Action::Sequence`].
    pub fn sequence(actions: Vec<Action<N>>) -> (a: Self)
        ensures
            a == Action::Sequence(actions),
    {
        Action::Sequence(actions)
    }

    /// Run `self` and `other` concurrently; complete when both finish.
    pub fn parallel_with(self, other: Action<N>) -> (a: Self)
        ensures
            a matches Action::Parallel(x, y) && *x == self && *y == other,
    {
        Action::Parallel(Box::new(self), Box::new(other))
    }

    /// Run `self` and `other` concurrently; complete when either finishes.
    pub fn race_with(self, other: Action<N>) -> (a: Self)
        ensures
            a matches Action::Race(x, y) && *x == self && *y == other,
    {
        Action::Race(Box::new(self), Box::new(other))
    }
}

} // verus!
