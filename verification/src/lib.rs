//! Typed requests, a tolerant record decoder and a cursor-based list
//! paginator for a payment-processing web API.
//!
//! A request is described by a builder with one field for each parameter
//! ([`subscription_item`], [`usage_record_summary`], [`topup`],
//! [`cash_balance`]). Built, it is a method, a path and a list of
//! parameters ([`request`], [`params`]) for an HTTP client to send; this
//! library sends nothing itself.
//!
//! A response is parsed into a JSON tree ([`json`]) and decoded into a
//! record ([`decode`]). Decoding ignores members that the record does not
//! know, and reports a missing field, a value of the wrong shape and an
//! unknown name of an enumeration each as an error of its own ([`error`]).
//! An object that the server reports as deleted decodes into its own
//! record ([`deleted`], [`deleted_product`], [`deleted_radar_value_list`]).
//!
//! A list endpoint returns its objects in pages ([`list`]). A paginator
//! ([`paginator`]) turns the pages into one sequence: it hands out the
//! objects of a page one by one and asks for the next page only when an
//! object of it is wanted. What a whole traversal comes to, given what
//! the fetches give, is stated and proved in [`traversal`].
//!
//! The functions are verified against contracts that say what they
//! return. The contracts are stated over the mathematical content of the
//! data, its *view*: a text is a sequence of characters, a list a sequence
//! of contents.

pub mod cash_balance;
pub mod decode;
pub mod deleted;
pub mod deleted_product;
pub mod deleted_radar_value_list;
pub mod error;
pub mod ids;
pub mod json;
pub mod list;
pub mod object;
pub mod paginator;
pub mod params;
pub mod request;
pub mod subscription_item;
pub mod text;
pub mod topup;
pub mod traversal;
pub mod types;
pub mod usage_record_summary;
