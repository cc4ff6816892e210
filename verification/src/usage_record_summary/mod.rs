//! Usage record summaries: the record, and the requests that list them.

pub mod requests;
pub mod types;
