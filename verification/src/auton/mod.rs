//! Autonomous routes.
//!
//! A [`Route`] is a named list of [`Action`]s run in order. The route
//! executor of the robot turns a route into hardware commands; the part of
//! it that decides how long each step waits is [`Route::sleep_plan`].
//! [`timer`] holds the deadline arithmetic used to time-box actions.

pub mod action;
pub mod route;
pub mod timer;

pub use action::Action;
pub use route::Route;
