//! Subscription items.

pub mod requests;
