//! What the service does with the requests it takes.

pub mod subscriptions;
