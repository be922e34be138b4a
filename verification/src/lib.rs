//! Tracking of purchase subscriptions that are reported to an affiliate
//! network: the status ledger of each subscription, the store that holds the
//! subscriptions, and the two jobs that report them and later reconcile them
//! with the network's own records.

pub mod cj;
pub mod controllers;
pub mod jobs;
pub mod models;
pub mod report_subscriptions;
pub mod timestamp;
