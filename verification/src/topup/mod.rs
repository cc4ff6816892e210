//! Top-ups.

pub mod requests;
