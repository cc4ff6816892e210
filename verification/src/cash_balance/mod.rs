//! A customer's cash balance.

pub mod requests;
