//! The records that the jobs work on.

pub mod status_history;
pub mod subscriptions;
