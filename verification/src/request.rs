//! What is handed to the HTTP client: a method, a path and parameters.

use crate::params::{pairs, Pairs, Param};
use vstd::prelude::*;

verus! {

/// The HTTP method of a request.
#[derive(Copy, Clone, Debug, PartialEq, Eq, Structural)]
pub enum StripeMethod {
    Get,
    Post,
    Delete,
}

/// A request, ready for the HTTP client: parameters of a query go into
/// the URL, parameters of a form into the body.
#[derive(Clone, Debug, PartialEq, Eq)]
pub struct RequestBuilder {
    pub method: StripeMethod,
    pub path: String,
    pub query: Option<Vec<Param>>,
    pub body: Option<Vec<Param>>,
}

/// The mathematical content of a [`RequestBuilder`].
pub ghost struct RequestView {
    pub method: StripeMethod,
    pub path: Seq<char>,
    pub query: Option<Pairs>,
    pub body: Option<Pairs>,
}

/// The pairs of an optional list of parameters.
pub open spec fn opt_pairs(params: Option<Vec<Param>>) -> Option<Pairs> {
    match params {
        Some(v) => Some(pairs(v@)),
        None => None,
    }
}

impl View for RequestBuilder {
    type V = RequestView;

    open spec fn view(&self) -> RequestView {
        RequestView {
            method: self.method,
            path: self.path@,
            query: opt_pairs(self.query),
            body: opt_pairs(self.body),
        }
    }
}

impl RequestBuilder {
    /// A request without parameters.
    pub fn new(method: StripeMethod, path: String) -> (r: Self)
        ensures
            r@ == (RequestView { method, path: path@, query: None, body: None }),
    {
        RequestBuilder { method, path, query: None, body: None }
    }

    /// Sets the query parameters.
    pub fn query(self, params: Vec<Param>) -> (r: Self)
        ensures
            r@ == (RequestView { query: Some(pairs(params@)), ..self@ }),
    {
        RequestBuilder {
            method: self.method,
            path: self.path,
            query: Some(params),
            body: self.body,
        }
    }

    /// Sets the form parameters of the body.
    pub fn form(self, params: Vec<Param>) -> (r: Self)
        ensures
            r@ == (RequestView { body: Some(pairs(params@)), ..self@ }),
    {
        RequestBuilder {
            method: self.method,
            path: self.path,
            query: self.query,
            body: Some(params),
        }
    }
}

} // verus!
