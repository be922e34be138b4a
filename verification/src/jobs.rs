//! Jobs that run on a schedule.

pub mod verify_reports;
