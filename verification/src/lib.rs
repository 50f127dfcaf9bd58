//! Verified core of a service that sponsors IOTA transaction fees for
//! client organisations grouped under shared budgets.
pub mod time;
pub mod ids;
pub mod client;
pub mod group;
pub mod sponsor_wallet;
pub mod views;
pub mod services;
pub mod log_events;
pub mod metrics;
pub mod operations;
pub mod demo;
pub mod laws;
