//! Alarm scheduling, due-time detection and the decisions of the alarm-clock
//! application, with their contracts proved by Verus.

pub mod audio;
pub mod calendar;
pub mod text;
pub mod model;
pub mod ordering;
pub mod schedule;
pub mod session;
