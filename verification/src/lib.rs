//! Decision core of a Redis publish/subscribe adapter.
//!
//! The adapter itself talks to Redis over the network; this crate holds what
//! it decides: which error each failure becomes, in which order the steps of
//! a publish or a subscription run, which event ids a batch reports, and the
//! table of active subscriptions.

pub mod redis_pubsub_errors;
pub mod connection;
pub mod publishing;
pub mod batch;
pub mod subscriptions;
pub mod subscribing;
