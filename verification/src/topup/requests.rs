//! Requests on top-ups.

use crate::decode::Decode;
use crate::error::{DecodeError, DecodeErrorView, JsonKind, StripeParseError};
use crate::ids::TopupId;
use crate::json::{Json, JsonView};
use crate::object::Object;
use crate::paginator::{lemma_cursor_keys_differ, Direction, ListPaginator, PaginatorView};
use crate::params::{
    field_key, has_param, lemma_has_param_concat, lemma_has_param_empty,
    lemma_has_param_opt_int, lemma_has_param_opt_text, lemma_text_list_keys, list_view,
    no_params, opt_int, opt_list_view, opt_str_view, opt_text, opt_text_list, pairs,
    push_field_i64, push_field_text, push_opt_i64, push_opt_text, push_opt_text_list, text_list,
    top_level, Pairs, Param,
};
use crate::request::{RequestBuilder, RequestView, StripeMethod};
use crate::text::{signed_decimal, str_eq};
use crate::types::{metadata_params, Currency, Metadata, RangeQueryTs};
use vstd::prelude::*;
use vstd::string::StringExecFns;

verus! {

/// The parameters of [`ListTopup`].
#[derive(Copy, Clone, Debug)]
pub struct ListTopupBuilder<'a> {
    /// A positive integer representing how much to transfer.
    pub amount: Option<RangeQueryTs>,
    /// A filter on the list, based on the object `created` field: an exact
    /// time, or bounds on it.
    pub created: Option<RangeQueryTs>,
    /// A cursor for use in pagination: the identifier of an object, to
    /// fetch the page that ends just before it.
    pub ending_before: Option<&'a str>,
    /// Specifies which fields in the response should be expanded.
    pub expand: Option<&'a [&'a str]>,
    /// A limit on the number of objects to be returned, between 1 and 100;
    /// the default is 10.
    pub limit: Option<i64>,
    /// A cursor for use in pagination: the identifier of an object, to
    /// fetch the page that starts just after it.
    pub starting_after: Option<&'a str>,
    /// Only return top-ups that have the given status.
    pub status: Option<ListTopupStatus>,
}

impl<'a> ListTopupBuilder<'a> {
    /// The record with nothing set.
    pub open spec fn initial() -> Self {
        ListTopupBuilder {
            amount: None,
            created: None,
            ending_before: None,
            expand: None,
            limit: None,
            starting_after: None,
            status: None,
        }
    }

    /// Makes the record with nothing set.
    pub fn new() -> (r: Self)
        ensures
            r == Self::initial(),
    {
        ListTopupBuilder {
            amount: None,
            created: None,
            ending_before: None,
            expand: None,
            limit: None,
            starting_after: None,
            status: None,
        }
    }

    /// The parameters `start` followed by those of the record keyed by
    /// `prefix`: one for every field that is set, in the order of
    /// declaration.
    pub open spec fn appended(&self, start: Pairs, prefix: Seq<char>) -> Pairs {
        let p = match self.amount {
            Some(q) => start + q.spec_params(field_key(prefix, "amount"@)),
            None => start,
        };
        let p = match self.created {
            Some(q) => p + q.spec_params(field_key(prefix, "created"@)),
            None => p,
        };
        let p = p + opt_text(
            field_key(prefix, "ending_before"@),
            opt_str_view(self.ending_before),
        );
        let p = p + opt_text_list(field_key(prefix, "expand"@), opt_list_view(self.expand));
        let p = p + opt_int(field_key(prefix, "limit"@), self.limit);
        let p = p + opt_text(
            field_key(prefix, "starting_after"@),
            opt_str_view(self.starting_after),
        );
        p + opt_text(
            field_key(prefix, "status"@),
            ListTopupStatus::opt_name(self.status),
        )
    }

    /// Appends the parameters of the record keyed by `prefix`.
    pub fn push_params(&self, out: &mut Vec<Param>, prefix: &str)
        ensures
            pairs(final(out)@) == self.appended(pairs(old(out)@), prefix@),
    {
        if let Some(q) = &self.amount {
            q.push_params(out, prefix, "amount");
        }
        if let Some(q) = &self.created {
            q.push_params(out, prefix, "created");
        }
        push_opt_text(out, prefix, "ending_before", self.ending_before);
        push_opt_text_list(out, prefix, "expand", self.expand);
        push_opt_i64(out, prefix, "limit", self.limit);
        push_opt_text(out, prefix, "starting_after", self.starting_after);
        push_opt_text(out, prefix, "status", ListTopupStatus::opt_str(self.status));
    }

    /// The parameters hold a cursor exactly where that cursor is set.
    pub proof fn lemma_cursor_params(&self)
        ensures
            has_param(self.spec_params(), "starting_after"@) <==> self.starting_after is Some,
            has_param(self.spec_params(), "ending_before"@) <==> self.ending_before is Some,
    {
        lemma_cursor_keys_differ();
        self.lemma_cursor_param("starting_after"@);
        self.lemma_cursor_param("ending_before"@);
    }

    /// A cursor is the key of its own field only: the other fields have
    /// keys of other lengths, or keys below a name that no cursor starts
    /// with.
    proof fn lemma_cursor_param(&self, k: Seq<char>)
        requires
            k == "starting_after"@ || k == "ending_before"@,
        ensures
            has_param(self.spec_params(), k) <==> if k == "starting_after"@ {
                self.starting_after is Some
            } else {
                self.ending_before is Some
            },
    {
        reveal_strlit("amount");
        reveal_strlit("created");
        reveal_strlit("ending_before");
        reveal_strlit("expand");
        reveal_strlit("limit");
        reveal_strlit("starting_after");
        reveal_strlit("status");
        assert("amount"@.len() == 6);
        assert("created"@.len() == 7);
        assert("ending_before"@.len() == 13);
        assert("expand"@.len() == 6);
        assert("limit"@.len() == 5);
        assert("starting_after"@.len() == 14);
        assert("status"@.len() == 6);
        let prefix = Seq::<char>::empty();
        let start = Pairs::empty();
        let upto_amount = match self.amount {
            Some(q) => start + q.spec_params(field_key(prefix, "amount"@)),
            None => start,
        };
        let upto_created = match self.created {
            Some(q) => upto_amount + q.spec_params(field_key(prefix, "created"@)),
            None => upto_amount,
        };
        let upto_ending_before = upto_created + opt_text(
            field_key(prefix, "ending_before"@),
            opt_str_view(self.ending_before),
        );
        let upto_expand = upto_ending_before + opt_text_list(
            field_key(prefix, "expand"@),
            opt_list_view(self.expand),
        );
        let upto_limit = upto_expand + opt_int(field_key(prefix, "limit"@), self.limit);
        let upto_starting_after = upto_limit + opt_text(
            field_key(prefix, "starting_after"@),
            opt_str_view(self.starting_after),
        );
        let upto_status = upto_starting_after + opt_text(
            field_key(prefix, "status"@),
            ListTopupStatus::opt_name(self.status),
        );
        lemma_has_param_empty(k);
        if let Some(q) = self.amount {
            lemma_has_param_concat(start, q.spec_params(field_key(prefix, "amount"@)), k);
            if has_param(q.spec_params(field_key(prefix, "amount"@)), k) {
                q.lemma_keys(field_key(prefix, "amount"@), k);
                assert(k.subrange(0, 6)[0] == k[0]);
            }
        }
        if let Some(q) = self.created {
            lemma_has_param_concat(upto_amount, q.spec_params(field_key(prefix, "created"@)), k);
            if has_param(q.spec_params(field_key(prefix, "created"@)), k) {
                q.lemma_keys(field_key(prefix, "created"@), k);
                assert(k.subrange(0, 7)[0] == k[0]);
            }
        }
        lemma_has_param_opt_text(
            field_key(prefix, "ending_before"@),
            opt_str_view(self.ending_before),
            k,
        );
        lemma_has_param_concat(
            upto_created,
            opt_text(field_key(prefix, "ending_before"@), opt_str_view(self.ending_before)),
            k,
        );
        lemma_has_param_concat(
            upto_ending_before,
            opt_text_list(field_key(prefix, "expand"@), opt_list_view(self.expand)),
            k,
        );
        if let Some(items) = self.expand {
            if has_param(text_list(field_key(prefix, "expand"@), list_view(items@)), k) {
                lemma_text_list_keys(field_key(prefix, "expand"@), list_view(items@), k);
                assert(k.subrange(0, 6)[0] == k[0] && k.subrange(0, 6)[1] == k[1]);
            }
        }
        lemma_has_param_opt_int(field_key(prefix, "limit"@), self.limit, k);
        lemma_has_param_concat(upto_expand, opt_int(field_key(prefix, "limit"@), self.limit), k);
        lemma_has_param_opt_text(
            field_key(prefix, "starting_after"@),
            opt_str_view(self.starting_after),
            k,
        );
        lemma_has_param_concat(
            upto_limit,
            opt_text(field_key(prefix, "starting_after"@), opt_str_view(self.starting_after)),
            k,
        );
        lemma_has_param_opt_text(
            field_key(prefix, "status"@),
            ListTopupStatus::opt_name(self.status),
            k,
        );
        lemma_has_param_concat(
            upto_starting_after,
            opt_text(field_key(prefix, "status"@), ListTopupStatus::opt_name(self.status)),
            k,
        );
    }

    /// The parameters of the request.
    pub open spec fn spec_params(&self) -> Pairs {
        self.appended(Seq::empty(), Seq::empty())
    }

    /// The parameters of the request.
    pub fn params(&self) -> (r: Vec<Param>)
        ensures
            pairs(r@) == self.spec_params(),
    {
        let mut out = no_params();
        self.push_params(&mut out, top_level());
        out
    }
}

/// Only return top-ups that have the given status. One of `canceled`,
/// `failed`, `pending` or `succeeded`.
#[derive(Copy, Clone, Debug, PartialEq, Eq, Structural)]
pub enum ListTopupStatus {
    Canceled,
    Failed,
    Pending,
    Succeeded,
}

impl View for ListTopupStatus {
    type V = Self;

    open spec fn view(&self) -> Self {
        *self
    }
}

impl ListTopupStatus {
    /// The wire name of a variant.
    pub open spec fn name(self) -> Seq<char> {
        match self {
            Self::Canceled => "canceled"@,
            Self::Failed => "failed"@,
            Self::Pending => "pending"@,
            Self::Succeeded => "succeeded"@,
        }
    }

    /// The variant that a wire name stands for, if any.
    pub open spec fn from_name(s: Seq<char>) -> Option<Self> {
        if s == "canceled"@ {
            Some(Self::Canceled)
        } else if s == "failed"@ {
            Some(Self::Failed)
        } else if s == "pending"@ {
            Some(Self::Pending)
        } else if s == "succeeded"@ {
            Some(Self::Succeeded)
        } else {
            None
        }
    }

    /// The wire name of an optional variant.
    pub open spec fn opt_name(value: Option<Self>) -> Option<Seq<char>> {
        match value {
            Some(v) => Some(v.name()),
            None => None,
        }
    }

    /// The wire name of the variant.
    pub fn as_str(self) -> (r: &'static str)
        ensures
            r@ == self.name(),
    {
        match self {
            Self::Canceled => "canceled",
            Self::Failed => "failed",
            Self::Pending => "pending",
            Self::Succeeded => "succeeded",
        }
    }

    /// The wire name of an optional variant.
    pub fn opt_str(value: Option<Self>) -> (r: Option<&'static str>)
        ensures
            opt_str_view(r) == Self::opt_name(value),
    {
        match value {
            Some(v) => Some(v.as_str()),
            None => None,
        }
    }

    /// Parses a wire name; any other text is an error.
    pub fn from_str(s: &str) -> (r: Result<Self, StripeParseError>)
        ensures
            r.ok() == Self::from_name(s@),
    {
        if str_eq(s, "canceled") {
            Ok(Self::Canceled)
        } else if str_eq(s, "failed") {
            Ok(Self::Failed)
        } else if str_eq(s, "pending") {
            Ok(Self::Pending)
        } else if str_eq(s, "succeeded") {
            Ok(Self::Succeeded)
        } else {
            Err(StripeParseError)
        }
    }

    /// Every variant is found again from its wire name, and from no other
    /// text.
    pub proof fn lemma_name_round_trip(v: Self, s: Seq<char>)
        ensures
            Self::from_name(v.name()) == Some(v),
            Self::from_name(s) == Some(v) <==> s == v.name(),
    {
        reveal_strlit("canceled");
        reveal_strlit("failed");
        reveal_strlit("pending");
        reveal_strlit("succeeded");
        assert("canceled"@.len() == 8);
        assert("failed"@.len() == 6);
        assert("pending"@.len() == 7);
        assert("succeeded"@.len() == 9);
    }

    /// A text that is no variant's wire name decodes to an unknown-variant
    /// error that carries the text.
    pub proof fn lemma_unknown_name_rejected(s: Seq<char>)
        requires
            forall|v: Self| v.name() != s,
        ensures
            Self::decoded(JsonView::String(s)) == Err::<Self, DecodeErrorView>(
                DecodeErrorView::UnknownEnumVariant { enum_name: "ListTopupStatus"@, raw_value: s },
            ),
    {
        assert(Self::Canceled.name() != s);
        assert(Self::Failed.name() != s);
        assert(Self::Pending.name() != s);
        assert(Self::Succeeded.name() != s);
    }
}

impl Decode for ListTopupStatus {
    /// A string decodes to the variant it names, or to an unknown-variant
    /// error; anything but a string is a type mismatch.
    open spec fn decoded(json: JsonView) -> Result<Self, DecodeErrorView> {
        match json {
            JsonView::String(s) => match Self::from_name(s) {
                Some(v) => Ok(v),
                None => Err(
                    DecodeErrorView::UnknownEnumVariant {
                        enum_name: "ListTopupStatus"@,
                        raw_value: s,
                    },
                ),
            },
            other => Err(
                DecodeErrorView::TypeMismatch {
                    record: "ListTopupStatus"@,
                    field: ""@,
                    expected: JsonKind::String,
                    actual: other.kind(),
                },
            ),
        }
    }

    fn decode(json: &Json) -> (r: Result<Self, DecodeError>) {
        match json {
            Json::String(s) => match Self::from_str(s.as_str()) {
                Ok(v) => Ok(v),
                Err(_) => Err(
                    DecodeError::UnknownEnumVariant {
                        enum_name: "ListTopupStatus",
                        raw_value: s.clone(),
                    },
                ),
            },
            other => Err(
                DecodeError::TypeMismatch {
                    record: "ListTopupStatus",
                    field: "",
                    expected: JsonKind::String,
                    actual: other.kind(),
                },
            ),
        }
    }
}

impl std::str::FromStr for ListTopupStatus {
    type Err = StripeParseError;

    fn from_str(s: &str) -> (r: Result<Self, StripeParseError>)
        ensures
            r.ok() == Self::from_name(s@),
    {
        ListTopupStatus::from_str(s)
    }
}

/// Returns a list of top-ups.
#[derive(Clone, Debug)]
pub struct ListTopup<'a> {
    pub inner: ListTopupBuilder<'a>,
}

impl<'a> ListTopup<'a> {
    /// Construct a new `ListTopup`.
    pub fn new() -> (r: Self)
        ensures
            r == (ListTopup { inner: ListTopupBuilder::initial() }),
    {
        ListTopup { inner: ListTopupBuilder::new() }
    }

    /// A positive integer representing how much to transfer.
    pub fn amount(self, amount: RangeQueryTs) -> (r: Self)
        ensures
            r == (ListTopup {
                inner: (ListTopupBuilder { amount: Some(amount), ..self.inner }),
            }),
    {
        let mut r = self;
        r.inner.amount = Some(amount);
        r
    }

    /// A filter on the list, based on the object `created` field: an exact
    /// time, or bounds on it.
    pub fn created(self, created: RangeQueryTs) -> (r: Self)
        ensures
            r == (ListTopup {
                inner: (ListTopupBuilder { created: Some(created), ..self.inner }),
            }),
    {
        let mut r = self;
        r.inner.created = Some(created);
        r
    }

    /// A cursor for use in pagination: the identifier of an object, to
    /// fetch the page that ends just before it.
    pub fn ending_before(self, ending_before: &'a str) -> (r: Self)
        ensures
            r == (ListTopup {
                inner: (ListTopupBuilder { ending_before: Some(ending_before), ..self.inner }),
            }),
    {
        let mut r = self;
        r.inner.ending_before = Some(ending_before);
        r
    }

    /// Specifies which fields in the response should be expanded.
    pub fn expand(self, expand: &'a [&'a str]) -> (r: Self)
        ensures
            r == (ListTopup {
                inner: (ListTopupBuilder { expand: Some(expand), ..self.inner }),
            }),
    {
        let mut r = self;
        r.inner.expand = Some(expand);
        r
    }

    /// A limit on the number of objects to be returned, between 1 and 100;
    /// the default is 10.
    pub fn limit(self, limit: i64) -> (r: Self)
        ensures
            r == (ListTopup {
                inner: (ListTopupBuilder { limit: Some(limit), ..self.inner }),
            }),
    {
        let mut r = self;
        r.inner.limit = Some(limit);
        r
    }

    /// A cursor for use in pagination: the identifier of an object, to
    /// fetch the page that starts just after it.
    pub fn starting_after(self, starting_after: &'a str) -> (r: Self)
        ensures
            r == (ListTopup {
                inner: (ListTopupBuilder { starting_after: Some(starting_after), ..self.inner }),
            }),
    {
        let mut r = self;
        r.inner.starting_after = Some(starting_after);
        r
    }

    /// Only return top-ups that have the given status.
    pub fn status(self, status: ListTopupStatus) -> (r: Self)
        ensures
            r == (ListTopup {
                inner: (ListTopupBuilder { status: Some(status), ..self.inner }),
            }),
    {
        let mut r = self;
        r.inner.status = Some(status);
        r
    }

    /// The path of the endpoint.
    pub open spec fn spec_path(&self) -> Seq<char> {
        "/topups"@
    }

    /// The request: the method, the path, and the parameters as a query.
    pub open spec fn spec_build(&self) -> RequestView {
        RequestView {
            method: StripeMethod::Get,
            path: self.spec_path(),
            query: Some(self.inner.spec_params()),
            body: None,
        }
    }

    /// Builds the path of the endpoint.
    pub fn path(&self) -> (r: String)
        ensures
            r@ == self.spec_path(),
    {
        "/topups".to_owned()
    }

    /// Builds the request for the HTTP client.
    pub fn build(&self) -> (r: RequestBuilder)
        ensures
            r@ == self.spec_build(),
    {
        RequestBuilder::new(StripeMethod::Get, self.path()).query(self.inner.params())
    }

    /// The traversal of the list before its first page.
    pub open spec fn spec_paginate<V>(&self) -> PaginatorView<V> {
        PaginatorView {
            url: self.spec_path(),
            params: self.inner.spec_params(),
            direction: if self.inner.ending_before is Some {
                Direction::Backward
            } else {
                Direction::Forward
            },
            buffer: Seq::empty(),
            has_more: true,
        }
    }

    /// Starts a traversal of the whole list, page by page: backward if
    /// `ending_before` is set, else forward. There is no traversal where
    /// both cursors are set.
    pub fn paginate<T: Object>(&self) -> (r: Option<ListPaginator<T>>)
        ensures
            r is None <==> self.inner.starting_after is Some && self.inner.ending_before is Some,
            r matches Some(p) ==> p@ == self.spec_paginate::<T::V>() && p@.one_way(),
    {
        proof {
            self.inner.lemma_cursor_params();
        }
        ListPaginator::new_list(self.path(), self.inner.params())
    }
}

impl<'a> Default for ListTopup<'a> {
    fn default() -> (r: Self)
        ensures
            r == (ListTopup { inner: ListTopupBuilder::initial() }),
    {
        Self::new()
    }
}

/// The parameters of [`RetrieveTopup`].
#[derive(Copy, Clone, Debug)]
pub struct RetrieveTopupBuilder<'a> {
    /// Specifies which fields in the response should be expanded.
    pub expand: Option<&'a [&'a str]>,
}

impl<'a> RetrieveTopupBuilder<'a> {
    /// The record with nothing set.
    pub open spec fn initial() -> Self {
        RetrieveTopupBuilder { expand: None }
    }

    /// Makes the record with nothing set.
    pub fn new() -> (r: Self)
        ensures
            r == Self::initial(),
    {
        RetrieveTopupBuilder { expand: None }
    }

    /// The parameters `start` followed by those of the record keyed by
    /// `prefix`: one for every field that is set, in the order of
    /// declaration.
    pub open spec fn appended(&self, start: Pairs, prefix: Seq<char>) -> Pairs {
        start + opt_text_list(field_key(prefix, "expand"@), opt_list_view(self.expand))
    }

    /// Appends the parameters of the record keyed by `prefix`.
    pub fn push_params(&self, out: &mut Vec<Param>, prefix: &str)
        ensures
            pairs(final(out)@) == self.appended(pairs(old(out)@), prefix@),
    {
        push_opt_text_list(out, prefix, "expand", self.expand);
    }

    /// The parameters of the request.
    pub open spec fn spec_params(&self) -> Pairs {
        self.appended(Seq::empty(), Seq::empty())
    }

    /// The parameters of the request.
    pub fn params(&self) -> (r: Vec<Param>)
        ensures
            pairs(r@) == self.spec_params(),
    {
        let mut out = no_params();
        self.push_params(&mut out, top_level());
        out
    }
}

/// Retrieves the details of a top-up that has previously been created.
#[derive(Clone, Debug)]
pub struct RetrieveTopup<'a> {
    pub inner: RetrieveTopupBuilder<'a>,
    pub topup: &'a TopupId,
}

impl<'a> RetrieveTopup<'a> {
    /// Construct a new `RetrieveTopup`.
    pub fn new(topup: &'a TopupId) -> (r: Self)
        ensures
            r == (RetrieveTopup { inner: RetrieveTopupBuilder::initial(), topup }),
    {
        RetrieveTopup { topup, inner: RetrieveTopupBuilder::new() }
    }

    /// Specifies which fields in the response should be expanded.
    pub fn expand(self, expand: &'a [&'a str]) -> (r: Self)
        ensures
            r == (RetrieveTopup {
                inner: (RetrieveTopupBuilder { expand: Some(expand), ..self.inner }),
                ..self
            }),
    {
        let mut r = self;
        r.inner.expand = Some(expand);
        r
    }

    /// The path of the endpoint.
    pub open spec fn spec_path(&self) -> Seq<char> {
        "/topups/"@ + self.topup@
    }

    /// The request: the method, the path, and the parameters as a query.
    pub open spec fn spec_build(&self) -> RequestView {
        RequestView {
            method: StripeMethod::Get,
            path: self.spec_path(),
            query: Some(self.inner.spec_params()),
            body: None,
        }
    }

    /// Builds the path of the endpoint.
    pub fn path(&self) -> (r: String)
        ensures
            r@ == self.spec_path(),
    {
        let mut path = "/topups/".to_owned();
        path.append(self.topup.as_str());
        path
    }

    /// Builds the request for the HTTP client.
    pub fn build(&self) -> (r: RequestBuilder)
        ensures
            r@ == self.spec_build(),
    {
        RequestBuilder::new(StripeMethod::Get, self.path()).query(self.inner.params())
    }
}

/// The parameters of [`CreateTopup`].
#[derive(Clone, Debug)]
pub struct CreateTopupBuilder<'a> {
    /// A positive integer representing how much to transfer.
    pub amount: i64,
    /// Three-letter ISO currency code, in lowercase.
    pub currency: Currency,
    /// An arbitrary string attached to the object.
    pub description: Option<&'a str>,
    /// Specifies which fields in the response should be expanded.
    pub expand: Option<&'a [&'a str]>,
    /// Key/value pairs to attach to the object. A key is unset by posting an
    /// empty value to it.
    pub metadata: Option<&'a Metadata>,
    /// The ID of a source to transfer funds from. For most users, this should
    /// be left unspecified, which will use the bank account that was set up
    /// in the dashboard for the specified currency.
    pub source: Option<&'a str>,
    /// Extra information about a top-up for the source's bank statement.
    /// Limited to 15 ASCII characters.
    pub statement_descriptor: Option<&'a str>,
    /// A string that identifies this top-up as part of a group.
    pub transfer_group: Option<&'a str>,
}

impl<'a> CreateTopupBuilder<'a> {
    /// The record with the given values and nothing else set.
    pub open spec fn initial(amount: i64, currency: Currency) -> Self {
        CreateTopupBuilder {
            amount,
            currency,
            description: None,
            expand: None,
            metadata: None,
            source: None,
            statement_descriptor: None,
            transfer_group: None,
        }
    }

    /// Makes the record with the given values and nothing else set.
    pub fn new(amount: i64, currency: Currency) -> (r: Self)
        ensures
            r == Self::initial(amount, currency),
    {
        CreateTopupBuilder {
            amount,
            currency,
            description: None,
            expand: None,
            metadata: None,
            source: None,
            statement_descriptor: None,
            transfer_group: None,
        }
    }

    /// The parameters `start` followed by those of the record keyed by
    /// `prefix`: one for every field that is set, in the order of
    /// declaration.
    pub open spec fn appended(&self, start: Pairs, prefix: Seq<char>) -> Pairs {
        let p = start + seq![
            (field_key(prefix, "amount"@), signed_decimal(self.amount as int)),
        ];
        let p = p + seq![(field_key(prefix, "currency"@), self.currency@)];
        let p = p + opt_text(field_key(prefix, "description"@), opt_str_view(self.description));
        let p = p + opt_text_list(field_key(prefix, "expand"@), opt_list_view(self.expand));
        let p = match self.metadata {
            Some(m) => p + metadata_params(field_key(prefix, "metadata"@), m@),
            None => p,
        };
        let p = p + opt_text(field_key(prefix, "source"@), opt_str_view(self.source));
        let p = p + opt_text(
            field_key(prefix, "statement_descriptor"@),
            opt_str_view(self.statement_descriptor),
        );
        p + opt_text(
            field_key(prefix, "transfer_group"@),
            opt_str_view(self.transfer_group),
        )
    }

    /// Appends the parameters of the record keyed by `prefix`.
    pub fn push_params(&self, out: &mut Vec<Param>, prefix: &str)
        ensures
            pairs(final(out)@) == self.appended(pairs(old(out)@), prefix@),
    {
        push_field_i64(out, prefix, "amount", self.amount);
        push_field_text(out, prefix, "currency", self.currency.as_str());
        push_opt_text(out, prefix, "description", self.description);
        push_opt_text_list(out, prefix, "expand", self.expand);
        if let Some(m) = self.metadata {
            m.push_params(out, prefix, "metadata");
        }
        push_opt_text(out, prefix, "source", self.source);
        push_opt_text(out, prefix, "statement_descriptor", self.statement_descriptor);
        push_opt_text(out, prefix, "transfer_group", self.transfer_group);
    }

    /// The parameters of the request.
    pub open spec fn spec_params(&self) -> Pairs {
        self.appended(Seq::empty(), Seq::empty())
    }

    /// The parameters of the request.
    pub fn params(&self) -> (r: Vec<Param>)
        ensures
            pairs(r@) == self.spec_params(),
    {
        let mut out = no_params();
        self.push_params(&mut out, top_level());
        out
    }
}

/// Top up the balance of an account.
#[derive(Clone, Debug)]
pub struct CreateTopup<'a> {
    pub inner: CreateTopupBuilder<'a>,
}

impl<'a> CreateTopup<'a> {
    /// Construct a new `CreateTopup`.
    pub fn new(amount: i64, currency: Currency) -> (r: Self)
        ensures
            r == (CreateTopup { inner: CreateTopupBuilder::initial(amount, currency) }),
    {
        CreateTopup { inner: CreateTopupBuilder::new(amount, currency) }
    }

    /// An arbitrary string attached to the object.
    pub fn description(self, description: &'a str) -> (r: Self)
        ensures
            r == (CreateTopup {
                inner: (CreateTopupBuilder { description: Some(description), ..self.inner }),
            }),
    {
        let mut r = self;
        r.inner.description = Some(description);
        r
    }

    /// Specifies which fields in the response should be expanded.
    pub fn expand(self, expand: &'a [&'a str]) -> (r: Self)
        ensures
            r == (CreateTopup {
                inner: (CreateTopupBuilder { expand: Some(expand), ..self.inner }),
            }),
    {
        let mut r = self;
        r.inner.expand = Some(expand);
        r
    }

    /// Key/value pairs to attach to the object. A key is unset by posting an
    /// empty value to it.
    pub fn metadata(self, metadata: &'a Metadata) -> (r: Self)
        ensures
            r == (CreateTopup {
                inner: (CreateTopupBuilder { metadata: Some(metadata), ..self.inner }),
            }),
    {
        let mut r = self;
        r.inner.metadata = Some(metadata);
        r
    }

    /// The ID of a source to transfer funds from. For most users, this should
    /// be left unspecified, which will use the bank account that was set up
    /// in the dashboard for the specified currency.
    pub fn source(self, source: &'a str) -> (r: Self)
        ensures
            r == (CreateTopup {
                inner: (CreateTopupBuilder { source: Some(source), ..self.inner }),
            }),
    {
        let mut r = self;
        r.inner.source = Some(source);
        r
    }

    /// Extra information about a top-up for the source's bank statement.
    /// Limited to 15 ASCII characters.
    pub fn statement_descriptor(self, statement_descriptor: &'a str) -> (r: Self)
        ensures
            r == (CreateTopup {
                inner: (CreateTopupBuilder {
                    statement_descriptor: Some(statement_descriptor),
                    ..self.inner
                }),
            }),
    {
        let mut r = self;
        r.inner.statement_descriptor = Some(statement_descriptor);
        r
    }

    /// A string that identifies this top-up as part of a group.
    pub fn transfer_group(self, transfer_group: &'a str) -> (r: Self)
        ensures
            r == (CreateTopup {
                inner: (CreateTopupBuilder { transfer_group: Some(transfer_group), ..self.inner }),
            }),
    {
        let mut r = self;
        r.inner.transfer_group = Some(transfer_group);
        r
    }

    /// The path of the endpoint.
    pub open spec fn spec_path(&self) -> Seq<char> {
        "/topups"@
    }

    /// The request: the method, the path, and the parameters as a form.
    pub open spec fn spec_build(&self) -> RequestView {
        RequestView {
            method: StripeMethod::Post,
            path: self.spec_path(),
            query: None,
            body: Some(self.inner.spec_params()),
        }
    }

    /// Builds the path of the endpoint.
    pub fn path(&self) -> (r: String)
        ensures
            r@ == self.spec_path(),
    {
        "/topups".to_owned()
    }

    /// Builds the request for the HTTP client.
    pub fn build(&self) -> (r: RequestBuilder)
        ensures
            r@ == self.spec_build(),
    {
        RequestBuilder::new(StripeMethod::Post, self.path()).form(self.inner.params())
    }
}

/// The parameters of [`UpdateTopup`].
#[derive(Copy, Clone, Debug)]
pub struct UpdateTopupBuilder<'a> {
    /// An arbitrary string attached to the object.
    pub description: Option<&'a str>,
    /// Specifies which fields in the response should be expanded.
    pub expand: Option<&'a [&'a str]>,
    /// Key/value pairs to attach to the object. A key is unset by posting an
    /// empty value to it.
    pub metadata: Option<&'a Metadata>,
}

impl<'a> UpdateTopupBuilder<'a> {
    /// The record with nothing set.
    pub open spec fn initial() -> Self {
        UpdateTopupBuilder { description: None, expand: None, metadata: None }
    }

    /// Makes the record with nothing set.
    pub fn new() -> (r: Self)
        ensures
            r == Self::initial(),
    {
        UpdateTopupBuilder { description: None, expand: None, metadata: None }
    }

    /// The parameters `start` followed by those of the record keyed by
    /// `prefix`: one for every field that is set, in the order of
    /// declaration.
    pub open spec fn appended(&self, start: Pairs, prefix: Seq<char>) -> Pairs {
        let p = start + opt_text(
            field_key(prefix, "description"@),
            opt_str_view(self.description),
        );
        let p = p + opt_text_list(field_key(prefix, "expand"@), opt_list_view(self.expand));
        match self.metadata {
            Some(m) => p + metadata_params(field_key(prefix, "metadata"@), m@),
            None => p,
        }
    }

    /// Appends the parameters of the record keyed by `prefix`.
    pub fn push_params(&self, out: &mut Vec<Param>, prefix: &str)
        ensures
            pairs(final(out)@) == self.appended(pairs(old(out)@), prefix@),
    {
        push_opt_text(out, prefix, "description", self.description);
        push_opt_text_list(out, prefix, "expand", self.expand);
        if let Some(m) = self.metadata {
            m.push_params(out, prefix, "metadata");
        }
    }

    /// The parameters of the request.
    pub open spec fn spec_params(&self) -> Pairs {
        self.appended(Seq::empty(), Seq::empty())
    }

    /// The parameters of the request.
    pub fn params(&self) -> (r: Vec<Param>)
        ensures
            pairs(r@) == self.spec_params(),
    {
        let mut out = no_params();
        self.push_params(&mut out, top_level());
        out
    }
}

/// Updates the metadata of a top-up. Other top-up details are not
/// editable by design.
#[derive(Clone, Debug)]
pub struct UpdateTopup<'a> {
    pub inner: UpdateTopupBuilder<'a>,
    pub topup: &'a TopupId,
}

impl<'a> UpdateTopup<'a> {
    /// Construct a new `UpdateTopup`.
    pub fn new(topup: &'a TopupId) -> (r: Self)
        ensures
            r == (UpdateTopup { inner: UpdateTopupBuilder::initial(), topup }),
    {
        UpdateTopup { topup, inner: UpdateTopupBuilder::new() }
    }

    /// An arbitrary string attached to the object.
    pub fn description(self, description: &'a str) -> (r: Self)
        ensures
            r == (UpdateTopup {
                inner: (UpdateTopupBuilder { description: Some(description), ..self.inner }),
                ..self
            }),
    {
        let mut r = self;
        r.inner.description = Some(description);
        r
    }

    /// Specifies which fields in the response should be expanded.
    pub fn expand(self, expand: &'a [&'a str]) -> (r: Self)
        ensures
            r == (UpdateTopup {
                inner: (UpdateTopupBuilder { expand: Some(expand), ..self.inner }),
                ..self
            }),
    {
        let mut r = self;
        r.inner.expand = Some(expand);
        r
    }

    /// Key/value pairs to attach to the object. A key is unset by posting an
    /// empty value to it.
    pub fn metadata(self, metadata: &'a Metadata) -> (r: Self)
        ensures
            r == (UpdateTopup {
                inner: (UpdateTopupBuilder { metadata: Some(metadata), ..self.inner }),
                ..self
            }),
    {
        let mut r = self;
        r.inner.metadata = Some(metadata);
        r
    }

    /// The path of the endpoint.
    pub open spec fn spec_path(&self) -> Seq<char> {
        "/topups/"@ + self.topup@
    }

    /// The request: the method, the path, and the parameters as a form.
    pub open spec fn spec_build(&self) -> RequestView {
        RequestView {
            method: StripeMethod::Post,
            path: self.spec_path(),
            query: None,
            body: Some(self.inner.spec_params()),
        }
    }

    /// Builds the path of the endpoint.
    pub fn path(&self) -> (r: String)
        ensures
            r@ == self.spec_path(),
    {
        let mut path = "/topups/".to_owned();
        path.append(self.topup.as_str());
        path
    }

    /// Builds the request for the HTTP client.
    pub fn build(&self) -> (r: RequestBuilder)
        ensures
            r@ == self.spec_build(),
    {
        RequestBuilder::new(StripeMethod::Post, self.path()).form(self.inner.params())
    }
}

/// The parameters of [`CancelTopup`].
#[derive(Copy, Clone, Debug)]
pub struct CancelTopupBuilder<'a> {
    /// Specifies which fields in the response should be expanded.
    pub expand: Option<&'a [&'a str]>,
}

impl<'a> CancelTopupBuilder<'a> {
    /// The record with nothing set.
    pub open spec fn initial() -> Self {
        CancelTopupBuilder { expand: None }
    }

    /// Makes the record with nothing set.
    pub fn new() -> (r: Self)
        ensures
            r == Self::initial(),
    {
        CancelTopupBuilder { expand: None }
    }

    /// The parameters `start` followed by those of the record keyed by
    /// `prefix`: one for every field that is set, in the order of
    /// declaration.
    pub open spec fn appended(&self, start: Pairs, prefix: Seq<char>) -> Pairs {
        start + opt_text_list(field_key(prefix, "expand"@), opt_list_view(self.expand))
    }

    /// Appends the parameters of the record keyed by `prefix`.
    pub fn push_params(&self, out: &mut Vec<Param>, prefix: &str)
        ensures
            pairs(final(out)@) == self.appended(pairs(old(out)@), prefix@),
    {
        push_opt_text_list(out, prefix, "expand", self.expand);
    }

    /// The parameters of the request.
    pub open spec fn spec_params(&self) -> Pairs {
        self.appended(Seq::empty(), Seq::empty())
    }

    /// The parameters of the request.
    pub fn params(&self) -> (r: Vec<Param>)
        ensures
            pairs(r@) == self.spec_params(),
    {
        let mut out = no_params();
        self.push_params(&mut out, top_level());
        out
    }
}

/// Cancels a top-up. Only pending top-ups can be canceled.
#[derive(Clone, Debug)]
pub struct CancelTopup<'a> {
    pub inner: CancelTopupBuilder<'a>,
    pub topup: &'a TopupId,
}

impl<'a> CancelTopup<'a> {
    /// Construct a new `CancelTopup`.
    pub fn new(topup: &'a TopupId) -> (r: Self)
        ensures
            r == (CancelTopup { inner: CancelTopupBuilder::initial(), topup }),
    {
        CancelTopup { topup, inner: CancelTopupBuilder::new() }
    }

    /// Specifies which fields in the response should be expanded.
    pub fn expand(self, expand: &'a [&'a str]) -> (r: Self)
        ensures
            r == (CancelTopup {
                inner: (CancelTopupBuilder { expand: Some(expand), ..self.inner }),
                ..self
            }),
    {
        let mut r = self;
        r.inner.expand = Some(expand);
        r
    }

    /// The path of the endpoint.
    pub open spec fn spec_path(&self) -> Seq<char> {
        "/topups/"@ + self.topup@ + "/cancel"@
    }

    /// The request: the method, the path, and the parameters as a form.
    pub open spec fn spec_build(&self) -> RequestView {
        RequestView {
            method: StripeMethod::Post,
            path: self.spec_path(),
            query: None,
            body: Some(self.inner.spec_params()),
        }
    }

    /// Builds the path of the endpoint.
    pub fn path(&self) -> (r: String)
        ensures
            r@ == self.spec_path(),
    {
        let mut path = "/topups/".to_owned();
        path.append(self.topup.as_str());
        path.append("/cancel");
        path
    }

    /// Builds the request for the HTTP client.
    pub fn build(&self) -> (r: RequestBuilder)
        ensures
            r@ == self.spec_build(),
    {
        RequestBuilder::new(StripeMethod::Post, self.path()).form(self.inner.params())
    }
}

} // verus!
