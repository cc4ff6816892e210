//! Requests on subscription items.

use crate::decode::Decode;
use crate::error::{DecodeError, DecodeErrorView, JsonKind, StripeParseError};
use crate::ids::SubscriptionItemId;
use crate::json::{Json, JsonView};
use crate::object::Object;
use crate::paginator::{lemma_cursor_keys_differ, Direction, ListPaginator, PaginatorView};
use crate::params::{
    field_key, has_param, index_key, lemma_has_param_concat, lemma_has_param_empty,
    lemma_has_param_one, lemma_has_param_opt_int, lemma_has_param_opt_text,
    lemma_text_list_keys, list_view, make_field_key, make_index_key, no_params, opt_bool,
    opt_int, opt_list_view, opt_nat, opt_str_view, opt_text, opt_text_list, pairs,
    push_field_i64, push_field_text, push_opt_bool, push_opt_i64, push_opt_text,
    push_opt_text_list, push_opt_u64, text_list, top_level, Pairs, Param,
};
use crate::request::{RequestBuilder, RequestView, StripeMethod};
use crate::text::{signed_decimal, str_eq};
use crate::types::{metadata_params, Currency, Metadata, Timestamp};
use crate::usage_record_summary::types::{UsageRecordSummary, UsageRecordSummaryView};
use vstd::prelude::*;
use vstd::string::StringExecFns;

verus! {

/// The parameters of [`DeleteSubscriptionItem`].
#[derive(Copy, Clone, Debug)]
pub struct DeleteSubscriptionItemBuilder {
    /// Delete all usage for the given subscription item. Allowed only when
    /// the current plan's `usage_type` is `metered`.
    pub clear_usage: Option<bool>,
    /// Determines how to handle prorations when the billing cycle changes (for
    /// example when switching plans or starting a trial), or if an item's
    /// `quantity` changes. The default value is `create_prorations`.
    pub proration_behavior: Option<DeleteSubscriptionItemProrationBehavior>,
    /// If set, the proration is calculated as though the subscription was
    /// updated at the given time.
    pub proration_date: Option<Timestamp>,
}

impl DeleteSubscriptionItemBuilder {
    /// The record with nothing set.
    pub open spec fn initial() -> Self {
        DeleteSubscriptionItemBuilder {
            clear_usage: None,
            proration_behavior: None,
            proration_date: None,
        }
    }

    /// Makes the record with nothing set.
    pub fn new() -> (r: Self)
        ensures
            r == Self::initial(),
    {
        DeleteSubscriptionItemBuilder {
            clear_usage: None,
            proration_behavior: None,
            proration_date: None,
        }
    }

    /// The parameters `start` followed by those of the record keyed by
    /// `prefix`: one for every field that is set, in the order of
    /// declaration.
    pub open spec fn appended(&self, start: Pairs, prefix: Seq<char>) -> Pairs {
        let p = start + opt_bool(field_key(prefix, "clear_usage"@), self.clear_usage);
        let p = p + opt_text(
            field_key(prefix, "proration_behavior"@),
            DeleteSubscriptionItemProrationBehavior::opt_name(self.proration_behavior),
        );
        p + opt_int(field_key(prefix, "proration_date"@), self.proration_date)
    }

    /// Appends the parameters of the record keyed by `prefix`.
    pub fn push_params(&self, out: &mut Vec<Param>, prefix: &str)
        ensures
            pairs(final(out)@) == self.appended(pairs(old(out)@), prefix@),
    {
        push_opt_bool(out, prefix, "clear_usage", self.clear_usage);
        push_opt_text(
            out,
            prefix,
            "proration_behavior",
            DeleteSubscriptionItemProrationBehavior::opt_str(self.proration_behavior),
        );
        push_opt_i64(out, prefix, "proration_date", self.proration_date);
    }

    /// The parameters of the request.
    pub open spec fn spec_params(&self) -> Pairs {
        self.appended(Seq::empty(), Seq::empty())
    }

    /// The parameters of the request.
    pub fn params(&self) -> (r: Vec<Param>)
        ensures
            pairs(r@) == self.spec_params(),
    {
        let mut out = no_params();
        self.push_params(&mut out, top_level());
        out
    }
}

/// Determines how to handle prorations when the billing cycle changes (for
/// example when switching plans or starting a trial), or if an item's
/// `quantity` changes. The default value is `create_prorations`.
#[derive(Copy, Clone, Debug, PartialEq, Eq, Structural)]
pub enum DeleteSubscriptionItemProrationBehavior {
    AlwaysInvoice,
    CreateProrations,
    NoProrations,
}

impl View for DeleteSubscriptionItemProrationBehavior {
    type V = Self;

    open spec fn view(&self) -> Self {
        *self
    }
}

impl DeleteSubscriptionItemProrationBehavior {
    /// The wire name of a variant.
    pub open spec fn name(self) -> Seq<char> {
        match self {
            Self::AlwaysInvoice => "always_invoice"@,
            Self::CreateProrations => "create_prorations"@,
            Self::NoProrations => "none"@,
        }
    }

    /// The variant that a wire name stands for, if any.
    pub open spec fn from_name(s: Seq<char>) -> Option<Self> {
        if s == "always_invoice"@ {
            Some(Self::AlwaysInvoice)
        } else if s == "create_prorations"@ {
            Some(Self::CreateProrations)
        } else if s == "none"@ {
            Some(Self::NoProrations)
        } else {
            None
        }
    }

    /// The wire name of an optional variant.
    pub open spec fn opt_name(value: Option<Self>) -> Option<Seq<char>> {
        match value {
            Some(v) => Some(v.name()),
            None => None,
        }
    }

    /// The wire name of the variant.
    pub fn as_str(self) -> (r: &'static str)
        ensures
            r@ == self.name(),
    {
        match self {
            Self::AlwaysInvoice => "always_invoice",
            Self::CreateProrations => "create_prorations",
            Self::NoProrations => "none",
        }
    }

    /// The wire name of an optional variant.
    pub fn opt_str(value: Option<Self>) -> (r: Option<&'static str>)
        ensures
            opt_str_view(r) == Self::opt_name(value),
    {
        match value {
            Some(v) => Some(v.as_str()),
            None => None,
        }
    }

    /// Parses a wire name; any other text is an error.
    pub fn from_str(s: &str) -> (r: Result<Self, StripeParseError>)
        ensures
            r.ok() == Self::from_name(s@),
    {
        if str_eq(s, "always_invoice") {
            Ok(Self::AlwaysInvoice)
        } else if str_eq(s, "create_prorations") {
            Ok(Self::CreateProrations)
        } else if str_eq(s, "none") {
            Ok(Self::NoProrations)
        } else {
            Err(StripeParseError)
        }
    }

    /// Every variant is found again from its wire name, and from no other
    /// text.
    pub proof fn lemma_name_round_trip(v: Self, s: Seq<char>)
        ensures
            Self::from_name(v.name()) == Some(v),
            Self::from_name(s) == Some(v) <==> s == v.name(),
    {
        reveal_strlit("always_invoice");
        reveal_strlit("create_prorations");
        reveal_strlit("none");
        assert("always_invoice"@.len() == 14);
        assert("create_prorations"@.len() == 17);
        assert("none"@.len() == 4);
    }

    /// A text that is no variant's wire name decodes to an unknown-variant
    /// error that carries the text.
    pub proof fn lemma_unknown_name_rejected(s: Seq<char>)
        requires
            forall|v: Self| v.name() != s,
        ensures
            Self::decoded(JsonView::String(s)) == Err::<Self, DecodeErrorView>(
                DecodeErrorView::UnknownEnumVariant {
                    enum_name: "DeleteSubscriptionItemProrationBehavior"@,
                    raw_value: s,
                },
            ),
    {
        assert(Self::AlwaysInvoice.name() != s);
        assert(Self::CreateProrations.name() != s);
        assert(Self::NoProrations.name() != s);
    }
}

impl Decode for DeleteSubscriptionItemProrationBehavior {
    /// A string decodes to the variant it names, or to an unknown-variant
    /// error; anything but a string is a type mismatch.
    open spec fn decoded(json: JsonView) -> Result<Self, DecodeErrorView> {
        match json {
            JsonView::String(s) => match Self::from_name(s) {
                Some(v) => Ok(v),
                None => Err(
                    DecodeErrorView::UnknownEnumVariant {
                        enum_name: "DeleteSubscriptionItemProrationBehavior"@,
                        raw_value: s,
                    },
                ),
            },
            other => Err(
                DecodeErrorView::TypeMismatch {
                    record: "DeleteSubscriptionItemProrationBehavior"@,
                    field: ""@,
                    expected: JsonKind::String,
                    actual: other.kind(),
                },
            ),
        }
    }

    fn decode(json: &Json) -> (r: Result<Self, DecodeError>) {
        match json {
            Json::String(s) => match Self::from_str(s.as_str()) {
                Ok(v) => Ok(v),
                Err(_) => Err(
                    DecodeError::UnknownEnumVariant {
                        enum_name: "DeleteSubscriptionItemProrationBehavior",
                        raw_value: s.clone(),
                    },
                ),
            },
            other => Err(
                DecodeError::TypeMismatch {
                    record: "DeleteSubscriptionItemProrationBehavior",
                    field: "",
                    expected: JsonKind::String,
                    actual: other.kind(),
                },
            ),
        }
    }
}

impl std::str::FromStr for DeleteSubscriptionItemProrationBehavior {
    type Err = StripeParseError;

    fn from_str(s: &str) -> (r: Result<Self, StripeParseError>)
        ensures
            r.ok() == Self::from_name(s@),
    {
        DeleteSubscriptionItemProrationBehavior::from_str(s)
    }
}

/// Deletes an item from the subscription. Removing a subscription item
/// does not cancel the subscription.
#[derive(Clone, Debug)]
pub struct DeleteSubscriptionItem<'a> {
    pub inner: DeleteSubscriptionItemBuilder,
    pub item: &'a SubscriptionItemId,
}

impl<'a> DeleteSubscriptionItem<'a> {
    /// Construct a new `DeleteSubscriptionItem`.
    pub fn new(item: &'a SubscriptionItemId) -> (r: Self)
        ensures
            r == (DeleteSubscriptionItem { inner: DeleteSubscriptionItemBuilder::initial(), item }),
    {
        DeleteSubscriptionItem { item, inner: DeleteSubscriptionItemBuilder::new() }
    }

    /// Delete all usage for the given subscription item. Allowed only when
    /// the current plan's `usage_type` is `metered`.
    pub fn clear_usage(self, clear_usage: bool) -> (r: Self)
        ensures
            r == (DeleteSubscriptionItem {
                inner: (DeleteSubscriptionItemBuilder {
                    clear_usage: Some(clear_usage),
                    ..self.inner
                }),
                ..self
            }),
    {
        let mut r = self;
        r.inner.clear_usage = Some(clear_usage);
        r
    }

    /// Determines how to handle prorations when the billing cycle changes (for
    /// example when switching plans or starting a trial), or if an item's
    /// `quantity` changes. The default value is `create_prorations`.
    pub fn proration_behavior(
        self,
        proration_behavior: DeleteSubscriptionItemProrationBehavior,
    ) -> (r: Self)
        ensures
            r == (DeleteSubscriptionItem {
                inner: (DeleteSubscriptionItemBuilder {
                    proration_behavior: Some(proration_behavior),
                    ..self.inner
                }),
                ..self
            }),
    {
        let mut r = self;
        r.inner.proration_behavior = Some(proration_behavior);
        r
    }

    /// If set, the proration is calculated as though the subscription was
    /// updated at the given time.
    pub fn proration_date(self, proration_date: Timestamp) -> (r: Self)
        ensures
            r == (DeleteSubscriptionItem {
                inner: (DeleteSubscriptionItemBuilder {
                    proration_date: Some(proration_date),
                    ..self.inner
                }),
                ..self
            }),
    {
        let mut r = self;
        r.inner.proration_date = Some(proration_date);
        r
    }

    /// The path of the endpoint.
    pub open spec fn spec_path(&self) -> Seq<char> {
        "/subscription_items/"@ + self.item@
    }

    /// The request: the method, the path, and the parameters as a form.
    pub open spec fn spec_build(&self) -> RequestView {
        RequestView {
            method: StripeMethod::Delete,
            path: self.spec_path(),
            query: None,
            body: Some(self.inner.spec_params()),
        }
    }

    /// Builds the path of the endpoint.
    pub fn path(&self) -> (r: String)
        ensures
            r@ == self.spec_path(),
    {
        let mut path = "/subscription_items/".to_owned();
        path.append(self.item.as_str());
        path
    }

    /// Builds the request for the HTTP client.
    pub fn build(&self) -> (r: RequestBuilder)
        ensures
            r@ == self.spec_build(),
    {
        RequestBuilder::new(StripeMethod::Delete, self.path()).form(self.inner.params())
    }
}

/// The parameters of [`ListSubscriptionItem`].
#[derive(Copy, Clone, Debug)]
pub struct ListSubscriptionItemBuilder<'a> {
    /// A cursor for use in pagination: the identifier of an object, to
    /// fetch the page that ends just before it.
    pub ending_before: Option<&'a str>,
    /// Specifies which fields in the response should be expanded.
    pub expand: Option<&'a [&'a str]>,
    /// A limit on the number of objects to be returned, between 1 and 100;
    /// the default is 10.
    pub limit: Option<i64>,
    /// A cursor for use in pagination: the identifier of an object, to
    /// fetch the page that starts just after it.
    pub starting_after: Option<&'a str>,
    /// The ID of the subscription whose items will be retrieved.
    pub subscription: &'a str,
}

impl<'a> ListSubscriptionItemBuilder<'a> {
    /// The record with the given values and nothing else set.
    pub open spec fn initial(subscription: &'a str) -> Self {
        ListSubscriptionItemBuilder {
            ending_before: None,
            expand: None,
            limit: None,
            starting_after: None,
            subscription,
        }
    }

    /// Makes the record with the given values and nothing else set.
    pub fn new(subscription: &'a str) -> (r: Self)
        ensures
            r == Self::initial(subscription),
    {
        ListSubscriptionItemBuilder {
            ending_before: None,
            expand: None,
            limit: None,
            starting_after: None,
            subscription,
        }
    }

    /// The parameters `start` followed by those of the record keyed by
    /// `prefix`: one for every field that is set, in the order of
    /// declaration.
    pub open spec fn appended(&self, start: Pairs, prefix: Seq<char>) -> Pairs {
        let p = start + opt_text(
            field_key(prefix, "ending_before"@),
            opt_str_view(self.ending_before),
        );
        let p = p + opt_text_list(field_key(prefix, "expand"@), opt_list_view(self.expand));
        let p = p + opt_int(field_key(prefix, "limit"@), self.limit);
        let p = p + opt_text(
            field_key(prefix, "starting_after"@),
            opt_str_view(self.starting_after),
        );
        p + seq![(field_key(prefix, "subscription"@), self.subscription@)]
    }

    /// Appends the parameters of the record keyed by `prefix`.
    pub fn push_params(&self, out: &mut Vec<Param>, prefix: &str)
        ensures
            pairs(final(out)@) == self.appended(pairs(old(out)@), prefix@),
    {
        push_opt_text(out, prefix, "ending_before", self.ending_before);
        push_opt_text_list(out, prefix, "expand", self.expand);
        push_opt_i64(out, prefix, "limit", self.limit);
        push_opt_text(out, prefix, "starting_after", self.starting_after);
        push_field_text(out, prefix, "subscription", self.subscription);
    }

    /// The parameters hold a cursor exactly where that cursor is set.
    pub proof fn lemma_cursor_params(&self)
        ensures
            has_param(self.spec_params(), "starting_after"@) <==> self.starting_after is Some,
            has_param(self.spec_params(), "ending_before"@) <==> self.ending_before is Some,
    {
        lemma_cursor_keys_differ();
        self.lemma_cursor_param("starting_after"@);
        self.lemma_cursor_param("ending_before"@);
    }

    /// A cursor is the key of its own field only: the other fields have
    /// keys of other lengths, or keys below a name that no cursor starts
    /// with.
    proof fn lemma_cursor_param(&self, k: Seq<char>)
        requires
            k == "starting_after"@ || k == "ending_before"@,
        ensures
            has_param(self.spec_params(), k) <==> if k == "starting_after"@ {
                self.starting_after is Some
            } else {
                self.ending_before is Some
            },
    {
        reveal_strlit("ending_before");
        reveal_strlit("expand");
        reveal_strlit("limit");
        reveal_strlit("starting_after");
        reveal_strlit("subscription");
        assert("ending_before"@.len() == 13);
        assert("expand"@.len() == 6);
        assert("limit"@.len() == 5);
        assert("starting_after"@.len() == 14);
        assert("subscription"@.len() == 12);
        let prefix = Seq::<char>::empty();
        let start = Pairs::empty();
        let upto_ending_before = start + opt_text(
            field_key(prefix, "ending_before"@),
            opt_str_view(self.ending_before),
        );
        let upto_expand = upto_ending_before + opt_text_list(
            field_key(prefix, "expand"@),
            opt_list_view(self.expand),
        );
        let upto_limit = upto_expand + opt_int(field_key(prefix, "limit"@), self.limit);
        let upto_starting_after = upto_limit + opt_text(
            field_key(prefix, "starting_after"@),
            opt_str_view(self.starting_after),
        );
        let upto_subscription = upto_starting_after + seq![
            (field_key(prefix, "subscription"@), self.subscription@),
        ];
        lemma_has_param_empty(k);
        lemma_has_param_opt_text(
            field_key(prefix, "ending_before"@),
            opt_str_view(self.ending_before),
            k,
        );
        lemma_has_param_concat(
            start,
            opt_text(field_key(prefix, "ending_before"@), opt_str_view(self.ending_before)),
            k,
        );
        lemma_has_param_concat(
            upto_ending_before,
            opt_text_list(field_key(prefix, "expand"@), opt_list_view(self.expand)),
            k,
        );
        if let Some(items) = self.expand {
            if has_param(text_list(field_key(prefix, "expand"@), list_view(items@)), k) {
                lemma_text_list_keys(field_key(prefix, "expand"@), list_view(items@), k);
                assert(k.subrange(0, 6)[0] == k[0] && k.subrange(0, 6)[1] == k[1]);
            }
        }
        lemma_has_param_opt_int(field_key(prefix, "limit"@), self.limit, k);
        lemma_has_param_concat(upto_expand, opt_int(field_key(prefix, "limit"@), self.limit), k);
        lemma_has_param_opt_text(
            field_key(prefix, "starting_after"@),
            opt_str_view(self.starting_after),
            k,
        );
        lemma_has_param_concat(
            upto_limit,
            opt_text(field_key(prefix, "starting_after"@), opt_str_view(self.starting_after)),
            k,
        );
        lemma_has_param_one(field_key(prefix, "subscription"@), self.subscription@, k);
        lemma_has_param_concat(
            upto_starting_after,
            seq![(field_key(prefix, "subscription"@), self.subscription@)],
            k,
        );
    }

    /// The parameters of the request.
    pub open spec fn spec_params(&self) -> Pairs {
        self.appended(Seq::empty(), Seq::empty())
    }

    /// The parameters of the request.
    pub fn params(&self) -> (r: Vec<Param>)
        ensures
            pairs(r@) == self.spec_params(),
    {
        let mut out = no_params();
        self.push_params(&mut out, top_level());
        out
    }
}

/// Returns a list of your subscription items for a given subscription.
#[derive(Clone, Debug)]
pub struct ListSubscriptionItem<'a> {
    pub inner: ListSubscriptionItemBuilder<'a>,
}

impl<'a> ListSubscriptionItem<'a> {
    /// Construct a new `ListSubscriptionItem`.
    pub fn new(subscription: &'a str) -> (r: Self)
        ensures
            r == (ListSubscriptionItem {
                inner: ListSubscriptionItemBuilder::initial(subscription),
            }),
    {
        ListSubscriptionItem { inner: ListSubscriptionItemBuilder::new(subscription) }
    }

    /// A cursor for use in pagination: the identifier of an object, to
    /// fetch the page that ends just before it.
    pub fn ending_before(self, ending_before: &'a str) -> (r: Self)
        ensures
            r == (ListSubscriptionItem {
                inner: (ListSubscriptionItemBuilder {
                    ending_before: Some(ending_before),
                    ..self.inner
                }),
            }),
    {
        let mut r = self;
        r.inner.ending_before = Some(ending_before);
        r
    }

    /// Specifies which fields in the response should be expanded.
    pub fn expand(self, expand: &'a [&'a str]) -> (r: Self)
        ensures
            r == (ListSubscriptionItem {
                inner: (ListSubscriptionItemBuilder { expand: Some(expand), ..self.inner }),
            }),
    {
        let mut r = self;
        r.inner.expand = Some(expand);
        r
    }

    /// A limit on the number of objects to be returned, between 1 and 100;
    /// the default is 10.
    pub fn limit(self, limit: i64) -> (r: Self)
        ensures
            r == (ListSubscriptionItem {
                inner: (ListSubscriptionItemBuilder { limit: Some(limit), ..self.inner }),
            }),
    {
        let mut r = self;
        r.inner.limit = Some(limit);
        r
    }

    /// A cursor for use in pagination: the identifier of an object, to
    /// fetch the page that starts just after it.
    pub fn starting_after(self, starting_after: &'a str) -> (r: Self)
        ensures
            r == (ListSubscriptionItem {
                inner: (ListSubscriptionItemBuilder {
                    starting_after: Some(starting_after),
                    ..self.inner
                }),
            }),
    {
        let mut r = self;
        r.inner.starting_after = Some(starting_after);
        r
    }

    /// The path of the endpoint.
    pub open spec fn spec_path(&self) -> Seq<char> {
        "/subscription_items"@
    }

    /// The request: the method, the path, and the parameters as a query.
    pub open spec fn spec_build(&self) -> RequestView {
        RequestView {
            method: StripeMethod::Get,
            path: self.spec_path(),
            query: Some(self.inner.spec_params()),
            body: None,
        }
    }

    /// Builds the path of the endpoint.
    pub fn path(&self) -> (r: String)
        ensures
            r@ == self.spec_path(),
    {
        "/subscription_items".to_owned()
    }

    /// Builds the request for the HTTP client.
    pub fn build(&self) -> (r: RequestBuilder)
        ensures
            r@ == self.spec_build(),
    {
        RequestBuilder::new(StripeMethod::Get, self.path()).query(self.inner.params())
    }

    /// The traversal of the list before its first page.
    pub open spec fn spec_paginate<V>(&self) -> PaginatorView<V> {
        PaginatorView {
            url: self.spec_path(),
            params: self.inner.spec_params(),
            direction: if self.inner.ending_before is Some {
                Direction::Backward
            } else {
                Direction::Forward
            },
            buffer: Seq::empty(),
            has_more: true,
        }
    }

    /// Starts a traversal of the whole list, page by page: backward if
    /// `ending_before` is set, else forward. There is no traversal where
    /// both cursors are set.
    pub fn paginate<T: Object>(&self) -> (r: Option<ListPaginator<T>>)
        ensures
            r is None <==> self.inner.starting_after is Some && self.inner.ending_before is Some,
            r matches Some(p) ==> p@ == self.spec_paginate::<T::V>() && p@.one_way(),
    {
        proof {
            self.inner.lemma_cursor_params();
        }
        ListPaginator::new_list(self.path(), self.inner.params())
    }
}

/// The parameters of [`RetrieveSubscriptionItem`].
#[derive(Copy, Clone, Debug)]
pub struct RetrieveSubscriptionItemBuilder<'a> {
    /// Specifies which fields in the response should be expanded.
    pub expand: Option<&'a [&'a str]>,
}

impl<'a> RetrieveSubscriptionItemBuilder<'a> {
    /// The record with nothing set.
    pub open spec fn initial() -> Self {
        RetrieveSubscriptionItemBuilder { expand: None }
    }

    /// Makes the record with nothing set.
    pub fn new() -> (r: Self)
        ensures
            r == Self::initial(),
    {
        RetrieveSubscriptionItemBuilder { expand: None }
    }

    /// The parameters `start` followed by those of the record keyed by
    /// `prefix`: one for every field that is set, in the order of
    /// declaration.
    pub open spec fn appended(&self, start: Pairs, prefix: Seq<char>) -> Pairs {
        start + opt_text_list(field_key(prefix, "expand"@), opt_list_view(self.expand))
    }

    /// Appends the parameters of the record keyed by `prefix`.
    pub fn push_params(&self, out: &mut Vec<Param>, prefix: &str)
        ensures
            pairs(final(out)@) == self.appended(pairs(old(out)@), prefix@),
    {
        push_opt_text_list(out, prefix, "expand", self.expand);
    }

    /// The parameters of the request.
    pub open spec fn spec_params(&self) -> Pairs {
        self.appended(Seq::empty(), Seq::empty())
    }

    /// The parameters of the request.
    pub fn params(&self) -> (r: Vec<Param>)
        ensures
            pairs(r@) == self.spec_params(),
    {
        let mut out = no_params();
        self.push_params(&mut out, top_level());
        out
    }
}

/// Retrieves the subscription item with the given ID.
#[derive(Clone, Debug)]
pub struct RetrieveSubscriptionItem<'a> {
    pub inner: RetrieveSubscriptionItemBuilder<'a>,
    pub item: &'a SubscriptionItemId,
}

impl<'a> RetrieveSubscriptionItem<'a> {
    /// Construct a new `RetrieveSubscriptionItem`.
    pub fn new(item: &'a SubscriptionItemId) -> (r: Self)
        ensures
            r == (RetrieveSubscriptionItem {
                inner: RetrieveSubscriptionItemBuilder::initial(),
                item,
            }),
    {
        RetrieveSubscriptionItem { item, inner: RetrieveSubscriptionItemBuilder::new() }
    }

    /// Specifies which fields in the response should be expanded.
    pub fn expand(self, expand: &'a [&'a str]) -> (r: Self)
        ensures
            r == (RetrieveSubscriptionItem {
                inner: (RetrieveSubscriptionItemBuilder { expand: Some(expand), ..self.inner }),
                ..self
            }),
    {
        let mut r = self;
        r.inner.expand = Some(expand);
        r
    }

    /// The path of the endpoint.
    pub open spec fn spec_path(&self) -> Seq<char> {
        "/subscription_items/"@ + self.item@
    }

    /// The request: the method, the path, and the parameters as a query.
    pub open spec fn spec_build(&self) -> RequestView {
        RequestView {
            method: StripeMethod::Get,
            path: self.spec_path(),
            query: Some(self.inner.spec_params()),
            body: None,
        }
    }

    /// Builds the path of the endpoint.
    pub fn path(&self) -> (r: String)
        ensures
            r@ == self.spec_path(),
    {
        let mut path = "/subscription_items/".to_owned();
        path.append(self.item.as_str());
        path
    }

    /// Builds the request for the HTTP client.
    pub fn build(&self) -> (r: RequestBuilder)
        ensures
            r@ == self.spec_build(),
    {
        RequestBuilder::new(StripeMethod::Get, self.path()).query(self.inner.params())
    }
}

/// The parameters of [`UsageRecordSummariesSubscriptionItem`].
#[derive(Copy, Clone, Debug)]
pub struct UsageRecordSummariesSubscriptionItemBuilder<'a> {
    /// A cursor for use in pagination: the identifier of an object, to
    /// fetch the page that ends just before it.
    pub ending_before: Option<&'a str>,
    /// Specifies which fields in the response should be expanded.
    pub expand: Option<&'a [&'a str]>,
    /// A limit on the number of objects to be returned, between 1 and 100;
    /// the default is 10.
    pub limit: Option<i64>,
    /// A cursor for use in pagination: the identifier of an object, to
    /// fetch the page that starts just after it.
    pub starting_after: Option<&'a str>,
}

impl<'a> UsageRecordSummariesSubscriptionItemBuilder<'a> {
    /// The record with nothing set.
    pub open spec fn initial() -> Self {
        UsageRecordSummariesSubscriptionItemBuilder {
            ending_before: None,
            expand: None,
            limit: None,
            starting_after: None,
        }
    }

    /// Makes the record with nothing set.
    pub fn new() -> (r: Self)
        ensures
            r == Self::initial(),
    {
        UsageRecordSummariesSubscriptionItemBuilder {
            ending_before: None,
            expand: None,
            limit: None,
            starting_after: None,
        }
    }

    /// The parameters `start` followed by those of the record keyed by
    /// `prefix`: one for every field that is set, in the order of
    /// declaration.
    pub open spec fn appended(&self, start: Pairs, prefix: Seq<char>) -> Pairs {
        let p = start + opt_text(
            field_key(prefix, "ending_before"@),
            opt_str_view(self.ending_before),
        );
        let p = p + opt_text_list(field_key(prefix, "expand"@), opt_list_view(self.expand));
        let p = p + opt_int(field_key(prefix, "limit"@), self.limit);
        p + opt_text(
            field_key(prefix, "starting_after"@),
            opt_str_view(self.starting_after),
        )
    }

    /// Appends the parameters of the record keyed by `prefix`.
    pub fn push_params(&self, out: &mut Vec<Param>, prefix: &str)
        ensures
            pairs(final(out)@) == self.appended(pairs(old(out)@), prefix@),
    {
        push_opt_text(out, prefix, "ending_before", self.ending_before);
        push_opt_text_list(out, prefix, "expand", self.expand);
        push_opt_i64(out, prefix, "limit", self.limit);
        push_opt_text(out, prefix, "starting_after", self.starting_after);
    }

    /// The parameters hold a cursor exactly where that cursor is set.
    pub proof fn lemma_cursor_params(&self)
        ensures
            has_param(self.spec_params(), "starting_after"@) <==> self.starting_after is Some,
            has_param(self.spec_params(), "ending_before"@) <==> self.ending_before is Some,
    {
        lemma_cursor_keys_differ();
        self.lemma_cursor_param("starting_after"@);
        self.lemma_cursor_param("ending_before"@);
    }

    /// A cursor is the key of its own field only: the other fields have
    /// keys of other lengths, or keys below a name that no cursor starts
    /// with.
    proof fn lemma_cursor_param(&self, k: Seq<char>)
        requires
            k == "starting_after"@ || k == "ending_before"@,
        ensures
            has_param(self.spec_params(), k) <==> if k == "starting_after"@ {
                self.starting_after is Some
            } else {
                self.ending_before is Some
            },
    {
        reveal_strlit("ending_before");
        reveal_strlit("expand");
        reveal_strlit("limit");
        reveal_strlit("starting_after");
        assert("ending_before"@.len() == 13);
        assert("expand"@.len() == 6);
        assert("limit"@.len() == 5);
        assert("starting_after"@.len() == 14);
        let prefix = Seq::<char>::empty();
        let start = Pairs::empty();
        let upto_ending_before = start + opt_text(
            field_key(prefix, "ending_before"@),
            opt_str_view(self.ending_before),
        );
        let upto_expand = upto_ending_before + opt_text_list(
            field_key(prefix, "expand"@),
            opt_list_view(self.expand),
        );
        let upto_limit = upto_expand + opt_int(field_key(prefix, "limit"@), self.limit);
        let upto_starting_after = upto_limit + opt_text(
            field_key(prefix, "starting_after"@),
            opt_str_view(self.starting_after),
        );
        lemma_has_param_empty(k);
        lemma_has_param_opt_text(
            field_key(prefix, "ending_before"@),
            opt_str_view(self.ending_before),
            k,
        );
        lemma_has_param_concat(
            start,
            opt_text(field_key(prefix, "ending_before"@), opt_str_view(self.ending_before)),
            k,
        );
        lemma_has_param_concat(
            upto_ending_before,
            opt_text_list(field_key(prefix, "expand"@), opt_list_view(self.expand)),
            k,
        );
        if let Some(items) = self.expand {
            if has_param(text_list(field_key(prefix, "expand"@), list_view(items@)), k) {
                lemma_text_list_keys(field_key(prefix, "expand"@), list_view(items@), k);
                assert(k.subrange(0, 6)[0] == k[0] && k.subrange(0, 6)[1] == k[1]);
            }
        }
        lemma_has_param_opt_int(field_key(prefix, "limit"@), self.limit, k);
        lemma_has_param_concat(upto_expand, opt_int(field_key(prefix, "limit"@), self.limit), k);
        lemma_has_param_opt_text(
            field_key(prefix, "starting_after"@),
            opt_str_view(self.starting_after),
            k,
        );
        lemma_has_param_concat(
            upto_limit,
            opt_text(field_key(prefix, "starting_after"@), opt_str_view(self.starting_after)),
            k,
        );
    }

    /// The parameters of the request.
    pub open spec fn spec_params(&self) -> Pairs {
        self.appended(Seq::empty(), Seq::empty())
    }

    /// The parameters of the request.
    pub fn params(&self) -> (r: Vec<Param>)
        ensures
            pairs(r@) == self.spec_params(),
    {
        let mut out = no_params();
        self.push_params(&mut out, top_level());
        out
    }
}

/// For the specified subscription item, returns a list of summary objects,
/// newest first. The first one covers the usage period that has not ended
/// yet, so it may still change.
#[derive(Clone, Debug)]
pub struct UsageRecordSummariesSubscriptionItem<'a> {
    pub inner: UsageRecordSummariesSubscriptionItemBuilder<'a>,
    pub subscription_item: &'a SubscriptionItemId,
}

impl<'a> UsageRecordSummariesSubscriptionItem<'a> {
    /// Construct a new `UsageRecordSummariesSubscriptionItem`.
    pub fn new(subscription_item: &'a SubscriptionItemId) -> (r: Self)
        ensures
            r == (UsageRecordSummariesSubscriptionItem {
                inner: UsageRecordSummariesSubscriptionItemBuilder::initial(),
                subscription_item,
            }),
    {
        UsageRecordSummariesSubscriptionItem {
            subscription_item,
            inner: UsageRecordSummariesSubscriptionItemBuilder::new(),
        }
    }

    /// A cursor for use in pagination: the identifier of an object, to
    /// fetch the page that ends just before it.
    pub fn ending_before(self, ending_before: &'a str) -> (r: Self)
        ensures
            r == (UsageRecordSummariesSubscriptionItem {
                inner: (UsageRecordSummariesSubscriptionItemBuilder {
                    ending_before: Some(ending_before),
                    ..self.inner
                }),
                ..self
            }),
    {
        let mut r = self;
        r.inner.ending_before = Some(ending_before);
        r
    }

    /// Specifies which fields in the response should be expanded.
    pub fn expand(self, expand: &'a [&'a str]) -> (r: Self)
        ensures
            r == (UsageRecordSummariesSubscriptionItem {
                inner: (UsageRecordSummariesSubscriptionItemBuilder {
                    expand: Some(expand),
                    ..self.inner
                }),
                ..self
            }),
    {
        let mut r = self;
        r.inner.expand = Some(expand);
        r
    }

    /// A limit on the number of objects to be returned, between 1 and 100;
    /// the default is 10.
    pub fn limit(self, limit: i64) -> (r: Self)
        ensures
            r == (UsageRecordSummariesSubscriptionItem {
                inner: (UsageRecordSummariesSubscriptionItemBuilder {
                    limit: Some(limit),
                    ..self.inner
                }),
                ..self
            }),
    {
        let mut r = self;
        r.inner.limit = Some(limit);
        r
    }

    /// A cursor for use in pagination: the identifier of an object, to
    /// fetch the page that starts just after it.
    pub fn starting_after(self, starting_after: &'a str) -> (r: Self)
        ensures
            r == (UsageRecordSummariesSubscriptionItem {
                inner: (UsageRecordSummariesSubscriptionItemBuilder {
                    starting_after: Some(starting_after),
                    ..self.inner
                }),
                ..self
            }),
    {
        let mut r = self;
        r.inner.starting_after = Some(starting_after);
        r
    }

    /// The path of the endpoint.
    pub open spec fn spec_path(&self) -> Seq<char> {
        "/subscription_items/"@ + self.subscription_item@ + "/usage_record_summaries"@
    }

    /// The request: the method, the path, and the parameters as a query.
    pub open spec fn spec_build(&self) -> RequestView {
        RequestView {
            method: StripeMethod::Get,
            path: self.spec_path(),
            query: Some(self.inner.spec_params()),
            body: None,
        }
    }

    /// Builds the path of the endpoint.
    pub fn path(&self) -> (r: String)
        ensures
            r@ == self.spec_path(),
    {
        let mut path = "/subscription_items/".to_owned();
        path.append(self.subscription_item.as_str());
        path.append("/usage_record_summaries");
        path
    }

    /// Builds the request for the HTTP client.
    pub fn build(&self) -> (r: RequestBuilder)
        ensures
            r@ == self.spec_build(),
    {
        RequestBuilder::new(StripeMethod::Get, self.path()).query(self.inner.params())
    }

    /// The traversal of the list before its first page.
    pub open spec fn spec_paginate<V>(&self) -> PaginatorView<V> {
        PaginatorView {
            url: self.spec_path(),
            params: self.inner.spec_params(),
            direction: if self.inner.ending_before is Some {
                Direction::Backward
            } else {
                Direction::Forward
            },
            buffer: Seq::empty(),
            has_more: true,
        }
    }

    /// Starts a traversal of the whole list, page by page: backward if
    /// `ending_before` is set, else forward. There is no traversal where
    /// both cursors are set.
    pub fn paginate(&self) -> (r: Option<ListPaginator<UsageRecordSummary>>)
        ensures
            r is None <==> self.inner.starting_after is Some && self.inner.ending_before is Some,
            r matches Some(p) ==> p@ == self.spec_paginate::<UsageRecordSummaryView>()
                && p@.one_way(),
    {
        proof {
            self.inner.lemma_cursor_params();
        }
        ListPaginator::new_list(self.path(), self.inner.params())
    }
}

/// The parameters of [`CreateSubscriptionItem`].
#[derive(Clone, Debug)]
pub struct CreateSubscriptionItemBuilder<'a> {
    /// Thresholds at which an invoice is sent and the subscription moves to a
    /// new billing period.
    pub billing_thresholds: Option<ItemBillingThresholdsParam>,
    /// The coupons to redeem into discounts for the subscription item.
    pub discounts: Option<&'a [DiscountsDataParam<'a>]>,
    /// Specifies which fields in the response should be expanded.
    pub expand: Option<&'a [&'a str]>,
    /// Key/value pairs to attach to the object. A key is unset by posting an
    /// empty value to it.
    pub metadata: Option<&'a Metadata>,
    /// How to proceed when a payment is required but cannot be made at once.
    ///
    /// `allow_incomplete` moves the subscription to `past_due`; this is the
    /// default. `default_incomplete` does the same and waits for an explicit
    /// confirmation of the invoice's payment intent. `pending_if_incomplete`
    /// applies the change as a pending update. `error_if_incomplete` makes the
    /// request fail with HTTP 402 instead.
    pub payment_behavior: Option<CreateSubscriptionItemPaymentBehavior>,
    /// The identifier of the plan.
    pub plan: Option<&'a str>,
    /// The ID of the price object.
    pub price: Option<&'a str>,
    /// Data used to generate a new price object inline.
    pub price_data: Option<CreateSubscriptionItemPriceData<'a>>,
    /// Determines how to handle prorations when the billing cycle changes (for
    /// example when switching plans or starting a trial), or if an item's
    /// `quantity` changes. The default value is `create_prorations`.
    pub proration_behavior: Option<CreateSubscriptionItemProrationBehavior>,
    /// If set, the proration is calculated as though the subscription was
    /// updated at the given time.
    pub proration_date: Option<Timestamp>,
    /// The quantity to apply to the subscription item.
    pub quantity: Option<u64>,
    /// The identifier of the subscription to modify.
    pub subscription: &'a str,
    /// A list of tax rate ids, which override the default tax rates of the
    /// subscription.
    pub tax_rates: Option<&'a [&'a str]>,
}

impl<'a> CreateSubscriptionItemBuilder<'a> {
    /// The record with the given values and nothing else set.
    pub open spec fn initial(subscription: &'a str) -> Self {
        CreateSubscriptionItemBuilder {
            billing_thresholds: None,
            discounts: None,
            expand: None,
            metadata: None,
            payment_behavior: None,
            plan: None,
            price: None,
            price_data: None,
            proration_behavior: None,
            proration_date: None,
            quantity: None,
            subscription,
            tax_rates: None,
        }
    }

    /// Makes the record with the given values and nothing else set.
    pub fn new(subscription: &'a str) -> (r: Self)
        ensures
            r == Self::initial(subscription),
    {
        CreateSubscriptionItemBuilder {
            billing_thresholds: None,
            discounts: None,
            expand: None,
            metadata: None,
            payment_behavior: None,
            plan: None,
            price: None,
            price_data: None,
            proration_behavior: None,
            proration_date: None,
            quantity: None,
            subscription,
            tax_rates: None,
        }
    }

    /// The parameters `start` followed by those of the record keyed by
    /// `prefix`: one for every field that is set, in the order of
    /// declaration.
    pub open spec fn appended(&self, start: Pairs, prefix: Seq<char>) -> Pairs {
        let p = match &self.billing_thresholds {
            Some(v) => v.appended(start, field_key(prefix, "billing_thresholds"@)),
            None => start,
        };
        let p = match self.discounts {
            Some(items) => DiscountsDataParam::list_appended(
                p,
                field_key(prefix, "discounts"@),
                items@,
            ),
            None => p,
        };
        let p = p + opt_text_list(field_key(prefix, "expand"@), opt_list_view(self.expand));
        let p = match self.metadata {
            Some(m) => p + metadata_params(field_key(prefix, "metadata"@), m@),
            None => p,
        };
        let p = p + opt_text(
            field_key(prefix, "payment_behavior"@),
            CreateSubscriptionItemPaymentBehavior::opt_name(self.payment_behavior),
        );
        let p = p + opt_text(field_key(prefix, "plan"@), opt_str_view(self.plan));
        let p = p + opt_text(field_key(prefix, "price"@), opt_str_view(self.price));
        let p = match &self.price_data {
            Some(v) => v.appended(p, field_key(prefix, "price_data"@)),
            None => p,
        };
        let p = p + opt_text(
            field_key(prefix, "proration_behavior"@),
            CreateSubscriptionItemProrationBehavior::opt_name(self.proration_behavior),
        );
        let p = p + opt_int(field_key(prefix, "proration_date"@), self.proration_date);
        let p = p + opt_nat(field_key(prefix, "quantity"@), self.quantity);
        let p = p + seq![(field_key(prefix, "subscription"@), self.subscription@)];
        p + opt_text_list(field_key(prefix, "tax_rates"@), opt_list_view(self.tax_rates))
    }

    /// Appends the parameters of the record keyed by `prefix`.
    pub fn push_params(&self, out: &mut Vec<Param>, prefix: &str)
        ensures
            pairs(final(out)@) == self.appended(pairs(old(out)@), prefix@),
    {
        if let Some(v) = &self.billing_thresholds {
            v.push_params(out, make_field_key(prefix, "billing_thresholds").as_str());
        }
        if let Some(items) = self.discounts {
            DiscountsDataParam::push_list_params(
                out,
                make_field_key(prefix, "discounts").as_str(),
                items,
            );
        }
        push_opt_text_list(out, prefix, "expand", self.expand);
        if let Some(m) = self.metadata {
            m.push_params(out, prefix, "metadata");
        }
        push_opt_text(
            out,
            prefix,
            "payment_behavior",
            CreateSubscriptionItemPaymentBehavior::opt_str(self.payment_behavior),
        );
        push_opt_text(out, prefix, "plan", self.plan);
        push_opt_text(out, prefix, "price", self.price);
        if let Some(v) = &self.price_data {
            v.push_params(out, make_field_key(prefix, "price_data").as_str());
        }
        push_opt_text(
            out,
            prefix,
            "proration_behavior",
            CreateSubscriptionItemProrationBehavior::opt_str(self.proration_behavior),
        );
        push_opt_i64(out, prefix, "proration_date", self.proration_date);
        push_opt_u64(out, prefix, "quantity", self.quantity);
        push_field_text(out, prefix, "subscription", self.subscription);
        push_opt_text_list(out, prefix, "tax_rates", self.tax_rates);
    }

    /// The parameters of the request.
    pub open spec fn spec_params(&self) -> Pairs {
        self.appended(Seq::empty(), Seq::empty())
    }

    /// The parameters of the request.
    pub fn params(&self) -> (r: Vec<Param>)
        ensures
            pairs(r@) == self.spec_params(),
    {
        let mut out = no_params();
        self.push_params(&mut out, top_level());
        out
    }
}

/// How to proceed when a payment is required but cannot be made at once.
///
/// `allow_incomplete` moves the subscription to `past_due`; this is the
/// default. `default_incomplete` does the same and waits for an explicit
/// confirmation of the invoice's payment intent. `pending_if_incomplete`
/// applies the change as a pending update. `error_if_incomplete` makes the
/// request fail with HTTP 402 instead.
#[derive(Copy, Clone, Debug, PartialEq, Eq, Structural)]
pub enum CreateSubscriptionItemPaymentBehavior {
    AllowIncomplete,
    DefaultIncomplete,
    ErrorIfIncomplete,
    PendingIfIncomplete,
}

impl View for CreateSubscriptionItemPaymentBehavior {
    type V = Self;

    open spec fn view(&self) -> Self {
        *self
    }
}

impl CreateSubscriptionItemPaymentBehavior {
    /// The wire name of a variant.
    pub open spec fn name(self) -> Seq<char> {
        match self {
            Self::AllowIncomplete => "allow_incomplete"@,
            Self::DefaultIncomplete => "default_incomplete"@,
            Self::ErrorIfIncomplete => "error_if_incomplete"@,
            Self::PendingIfIncomplete => "pending_if_incomplete"@,
        }
    }

    /// The variant that a wire name stands for, if any.
    pub open spec fn from_name(s: Seq<char>) -> Option<Self> {
        if s == "allow_incomplete"@ {
            Some(Self::AllowIncomplete)
        } else if s == "default_incomplete"@ {
            Some(Self::DefaultIncomplete)
        } else if s == "error_if_incomplete"@ {
            Some(Self::ErrorIfIncomplete)
        } else if s == "pending_if_incomplete"@ {
            Some(Self::PendingIfIncomplete)
        } else {
            None
        }
    }

    /// The wire name of an optional variant.
    pub open spec fn opt_name(value: Option<Self>) -> Option<Seq<char>> {
        match value {
            Some(v) => Some(v.name()),
            None => None,
        }
    }

    /// The wire name of the variant.
    pub fn as_str(self) -> (r: &'static str)
        ensures
            r@ == self.name(),
    {
        match self {
            Self::AllowIncomplete => "allow_incomplete",
            Self::DefaultIncomplete => "default_incomplete",
            Self::ErrorIfIncomplete => "error_if_incomplete",
            Self::PendingIfIncomplete => "pending_if_incomplete",
        }
    }

    /// The wire name of an optional variant.
    pub fn opt_str(value: Option<Self>) -> (r: Option<&'static str>)
        ensures
            opt_str_view(r) == Self::opt_name(value),
    {
        match value {
            Some(v) => Some(v.as_str()),
            None => None,
        }
    }

    /// Parses a wire name; any other text is an error.
    pub fn from_str(s: &str) -> (r: Result<Self, StripeParseError>)
        ensures
            r.ok() == Self::from_name(s@),
    {
        if str_eq(s, "allow_incomplete") {
            Ok(Self::AllowIncomplete)
        } else if str_eq(s, "default_incomplete") {
            Ok(Self::DefaultIncomplete)
        } else if str_eq(s, "error_if_incomplete") {
            Ok(Self::ErrorIfIncomplete)
        } else if str_eq(s, "pending_if_incomplete") {
            Ok(Self::PendingIfIncomplete)
        } else {
            Err(StripeParseError)
        }
    }

    /// Every variant is found again from its wire name, and from no other
    /// text.
    pub proof fn lemma_name_round_trip(v: Self, s: Seq<char>)
        ensures
            Self::from_name(v.name()) == Some(v),
            Self::from_name(s) == Some(v) <==> s == v.name(),
    {
        reveal_strlit("allow_incomplete");
        reveal_strlit("default_incomplete");
        reveal_strlit("error_if_incomplete");
        reveal_strlit("pending_if_incomplete");
        assert("allow_incomplete"@.len() == 16);
        assert("default_incomplete"@.len() == 18);
        assert("error_if_incomplete"@.len() == 19);
        assert("pending_if_incomplete"@.len() == 21);
    }

    /// A text that is no variant's wire name decodes to an unknown-variant
    /// error that carries the text.
    pub proof fn lemma_unknown_name_rejected(s: Seq<char>)
        requires
            forall|v: Self| v.name() != s,
        ensures
            Self::decoded(JsonView::String(s)) == Err::<Self, DecodeErrorView>(
                DecodeErrorView::UnknownEnumVariant {
                    enum_name: "CreateSubscriptionItemPaymentBehavior"@,
                    raw_value: s,
                },
            ),
    {
        assert(Self::AllowIncomplete.name() != s);
        assert(Self::DefaultIncomplete.name() != s);
        assert(Self::ErrorIfIncomplete.name() != s);
        assert(Self::PendingIfIncomplete.name() != s);
    }
}

impl Decode for CreateSubscriptionItemPaymentBehavior {
    /// A string decodes to the variant it names, or to an unknown-variant
    /// error; anything but a string is a type mismatch.
    open spec fn decoded(json: JsonView) -> Result<Self, DecodeErrorView> {
        match json {
            JsonView::String(s) => match Self::from_name(s) {
                Some(v) => Ok(v),
                None => Err(
                    DecodeErrorView::UnknownEnumVariant {
                        enum_name: "CreateSubscriptionItemPaymentBehavior"@,
                        raw_value: s,
                    },
                ),
            },
            other => Err(
                DecodeErrorView::TypeMismatch {
                    record: "CreateSubscriptionItemPaymentBehavior"@,
                    field: ""@,
                    expected: JsonKind::String,
                    actual: other.kind(),
                },
            ),
        }
    }

    fn decode(json: &Json) -> (r: Result<Self, DecodeError>) {
        match json {
            Json::String(s) => match Self::from_str(s.as_str()) {
                Ok(v) => Ok(v),
                Err(_) => Err(
                    DecodeError::UnknownEnumVariant {
                        enum_name: "CreateSubscriptionItemPaymentBehavior",
                        raw_value: s.clone(),
                    },
                ),
            },
            other => Err(
                DecodeError::TypeMismatch {
                    record: "CreateSubscriptionItemPaymentBehavior",
                    field: "",
                    expected: JsonKind::String,
                    actual: other.kind(),
                },
            ),
        }
    }
}

impl std::str::FromStr for CreateSubscriptionItemPaymentBehavior {
    type Err = StripeParseError;

    fn from_str(s: &str) -> (r: Result<Self, StripeParseError>)
        ensures
            r.ok() == Self::from_name(s@),
    {
        CreateSubscriptionItemPaymentBehavior::from_str(s)
    }
}

/// Data used to generate a new price object inline.
#[derive(Clone, Debug)]
pub struct CreateSubscriptionItemPriceData<'a> {
    /// Three-letter ISO currency code, in lowercase.
    pub currency: Currency,
    /// The ID of the product that this price will belong to.
    pub product: &'a str,
    /// The recurring components of a price such as `interval` and
    /// `interval_count`.
    pub recurring: CreateSubscriptionItemPriceDataRecurring,
    /// Whether the price is considered inclusive of taxes or exclusive of
    /// taxes. Once specified as either `inclusive` or `exclusive`, it cannot be
    /// changed.
    pub tax_behavior: Option<CreateSubscriptionItemPriceDataTaxBehavior>,
    /// How much to charge, as a non-negative integer in cents (or local
    /// equivalent).
    pub unit_amount: Option<i64>,
    /// Same as `unit_amount`, but as a decimal text with at most 12 decimal
    /// places. Only one of the two can be set.
    pub unit_amount_decimal: Option<&'a str>,
}

impl<'a> CreateSubscriptionItemPriceData<'a> {
    /// The record with the given values and nothing else set.
    pub open spec fn initial(
        currency: Currency,
        product: &'a str,
        recurring: CreateSubscriptionItemPriceDataRecurring,
    ) -> Self {
        CreateSubscriptionItemPriceData {
            currency,
            product,
            recurring,
            tax_behavior: None,
            unit_amount: None,
            unit_amount_decimal: None,
        }
    }

    /// Makes the record with the given values and nothing else set.
    pub fn new(
        currency: Currency,
        product: &'a str,
        recurring: CreateSubscriptionItemPriceDataRecurring,
    ) -> (r: Self)
        ensures
            r == Self::initial(currency, product, recurring),
    {
        CreateSubscriptionItemPriceData {
            currency,
            product,
            recurring,
            tax_behavior: None,
            unit_amount: None,
            unit_amount_decimal: None,
        }
    }

    /// The parameters `start` followed by those of the record keyed by
    /// `prefix`: one for every field that is set, in the order of
    /// declaration.
    pub open spec fn appended(&self, start: Pairs, prefix: Seq<char>) -> Pairs {
        let p = start + seq![(field_key(prefix, "currency"@), self.currency@)];
        let p = p + seq![(field_key(prefix, "product"@), self.product@)];
        let p = self.recurring.appended(p, field_key(prefix, "recurring"@));
        let p = p + opt_text(
            field_key(prefix, "tax_behavior"@),
            CreateSubscriptionItemPriceDataTaxBehavior::opt_name(self.tax_behavior),
        );
        let p = p + opt_int(field_key(prefix, "unit_amount"@), self.unit_amount);
        p + opt_text(
            field_key(prefix, "unit_amount_decimal"@),
            opt_str_view(self.unit_amount_decimal),
        )
    }

    /// Appends the parameters of the record keyed by `prefix`.
    pub fn push_params(&self, out: &mut Vec<Param>, prefix: &str)
        ensures
            pairs(final(out)@) == self.appended(pairs(old(out)@), prefix@),
    {
        push_field_text(out, prefix, "currency", self.currency.as_str());
        push_field_text(out, prefix, "product", self.product);
        self.recurring.push_params(out, make_field_key(prefix, "recurring").as_str());
        push_opt_text(
            out,
            prefix,
            "tax_behavior",
            CreateSubscriptionItemPriceDataTaxBehavior::opt_str(self.tax_behavior),
        );
        push_opt_i64(out, prefix, "unit_amount", self.unit_amount);
        push_opt_text(out, prefix, "unit_amount_decimal", self.unit_amount_decimal);
    }
}

/// The recurring components of a price such as `interval` and
/// `interval_count`.
#[derive(Copy, Clone, Debug)]
pub struct CreateSubscriptionItemPriceDataRecurring {
    /// Specifies billing frequency. Either `day`, `week`, `month` or `year`.
    pub interval: CreateSubscriptionItemPriceDataRecurringInterval,
    /// The number of intervals between subscription billings; at most three
    /// years in all.
    pub interval_count: Option<u64>,
}

impl CreateSubscriptionItemPriceDataRecurring {
    /// The record with the given values and nothing else set.
    pub open spec fn initial(interval: CreateSubscriptionItemPriceDataRecurringInterval) -> Self {
        CreateSubscriptionItemPriceDataRecurring { interval, interval_count: None }
    }

    /// Makes the record with the given values and nothing else set.
    pub fn new(interval: CreateSubscriptionItemPriceDataRecurringInterval) -> (r: Self)
        ensures
            r == Self::initial(interval),
    {
        CreateSubscriptionItemPriceDataRecurring { interval, interval_count: None }
    }

    /// The parameters `start` followed by those of the record keyed by
    /// `prefix`: one for every field that is set, in the order of
    /// declaration.
    pub open spec fn appended(&self, start: Pairs, prefix: Seq<char>) -> Pairs {
        let p = start + seq![(field_key(prefix, "interval"@), self.interval.name())];
        p + opt_nat(field_key(prefix, "interval_count"@), self.interval_count)
    }

    /// Appends the parameters of the record keyed by `prefix`.
    pub fn push_params(&self, out: &mut Vec<Param>, prefix: &str)
        ensures
            pairs(final(out)@) == self.appended(pairs(old(out)@), prefix@),
    {
        push_field_text(out, prefix, "interval", self.interval.as_str());
        push_opt_u64(out, prefix, "interval_count", self.interval_count);
    }
}

/// Specifies billing frequency. Either `day`, `week`, `month` or `year`.
#[derive(Copy, Clone, Debug, PartialEq, Eq, Structural)]
pub enum CreateSubscriptionItemPriceDataRecurringInterval {
    Day,
    Month,
    Week,
    Year,
}

impl View for CreateSubscriptionItemPriceDataRecurringInterval {
    type V = Self;

    open spec fn view(&self) -> Self {
        *self
    }
}

impl CreateSubscriptionItemPriceDataRecurringInterval {
    /// The wire name of a variant.
    pub open spec fn name(self) -> Seq<char> {
        match self {
            Self::Day => "day"@,
            Self::Month => "month"@,
            Self::Week => "week"@,
            Self::Year => "year"@,
        }
    }

    /// The variant that a wire name stands for, if any.
    pub open spec fn from_name(s: Seq<char>) -> Option<Self> {
        if s == "day"@ {
            Some(Self::Day)
        } else if s == "month"@ {
            Some(Self::Month)
        } else if s == "week"@ {
            Some(Self::Week)
        } else if s == "year"@ {
            Some(Self::Year)
        } else {
            None
        }
    }

    /// The wire name of an optional variant.
    pub open spec fn opt_name(value: Option<Self>) -> Option<Seq<char>> {
        match value {
            Some(v) => Some(v.name()),
            None => None,
        }
    }

    /// The wire name of the variant.
    pub fn as_str(self) -> (r: &'static str)
        ensures
            r@ == self.name(),
    {
        match self {
            Self::Day => "day",
            Self::Month => "month",
            Self::Week => "week",
            Self::Year => "year",
        }
    }

    /// The wire name of an optional variant.
    pub fn opt_str(value: Option<Self>) -> (r: Option<&'static str>)
        ensures
            opt_str_view(r) == Self::opt_name(value),
    {
        match value {
            Some(v) => Some(v.as_str()),
            None => None,
        }
    }

    /// Parses a wire name; any other text is an error.
    pub fn from_str(s: &str) -> (r: Result<Self, StripeParseError>)
        ensures
            r.ok() == Self::from_name(s@),
    {
        if str_eq(s, "day") {
            Ok(Self::Day)
        } else if str_eq(s, "month") {
            Ok(Self::Month)
        } else if str_eq(s, "week") {
            Ok(Self::Week)
        } else if str_eq(s, "year") {
            Ok(Self::Year)
        } else {
            Err(StripeParseError)
        }
    }

    /// Every variant is found again from its wire name, and from no other
    /// text.
    pub proof fn lemma_name_round_trip(v: Self, s: Seq<char>)
        ensures
            Self::from_name(v.name()) == Some(v),
            Self::from_name(s) == Some(v) <==> s == v.name(),
    {
        reveal_strlit("day");
        reveal_strlit("month");
        reveal_strlit("week");
        reveal_strlit("year");
        assert("day"@.len() == 3);
        assert("month"@.len() == 5);
        assert("week"@.len() == 4);
        assert("year"@.len() == 4);
        assert("week"@[0] == 'w');
        assert("year"@[0] == 'y');
    }

    /// A text that is no variant's wire name decodes to an unknown-variant
    /// error that carries the text.
    pub proof fn lemma_unknown_name_rejected(s: Seq<char>)
        requires
            forall|v: Self| v.name() != s,
        ensures
            Self::decoded(JsonView::String(s)) == Err::<Self, DecodeErrorView>(
                DecodeErrorView::UnknownEnumVariant {
                    enum_name: "CreateSubscriptionItemPriceDataRecurringInterval"@,
                    raw_value: s,
                },
            ),
    {
        assert(Self::Day.name() != s);
        assert(Self::Month.name() != s);
        assert(Self::Week.name() != s);
        assert(Self::Year.name() != s);
    }
}

impl Decode for CreateSubscriptionItemPriceDataRecurringInterval {
    /// A string decodes to the variant it names, or to an unknown-variant
    /// error; anything but a string is a type mismatch.
    open spec fn decoded(json: JsonView) -> Result<Self, DecodeErrorView> {
        match json {
            JsonView::String(s) => match Self::from_name(s) {
                Some(v) => Ok(v),
                None => Err(
                    DecodeErrorView::UnknownEnumVariant {
                        enum_name: "CreateSubscriptionItemPriceDataRecurringInterval"@,
                        raw_value: s,
                    },
                ),
            },
            other => Err(
                DecodeErrorView::TypeMismatch {
                    record: "CreateSubscriptionItemPriceDataRecurringInterval"@,
                    field: ""@,
                    expected: JsonKind::String,
                    actual: other.kind(),
                },
            ),
        }
    }

    fn decode(json: &Json) -> (r: Result<Self, DecodeError>) {
        match json {
            Json::String(s) => match Self::from_str(s.as_str()) {
                Ok(v) => Ok(v),
                Err(_) => Err(
                    DecodeError::UnknownEnumVariant {
                        enum_name: "CreateSubscriptionItemPriceDataRecurringInterval",
                        raw_value: s.clone(),
                    },
                ),
            },
            other => Err(
                DecodeError::TypeMismatch {
                    record: "CreateSubscriptionItemPriceDataRecurringInterval",
                    field: "",
                    expected: JsonKind::String,
                    actual: other.kind(),
                },
            ),
        }
    }
}

impl std::str::FromStr for CreateSubscriptionItemPriceDataRecurringInterval {
    type Err = StripeParseError;

    fn from_str(s: &str) -> (r: Result<Self, StripeParseError>)
        ensures
            r.ok() == Self::from_name(s@),
    {
        CreateSubscriptionItemPriceDataRecurringInterval::from_str(s)
    }
}

/// Whether the price is considered inclusive of taxes or exclusive of
/// taxes. Once specified as either `inclusive` or `exclusive`, it cannot be
/// changed.
#[derive(Copy, Clone, Debug, PartialEq, Eq, Structural)]
pub enum CreateSubscriptionItemPriceDataTaxBehavior {
    Exclusive,
    Inclusive,
    Unspecified,
}

impl View for CreateSubscriptionItemPriceDataTaxBehavior {
    type V = Self;

    open spec fn view(&self) -> Self {
        *self
    }
}

impl CreateSubscriptionItemPriceDataTaxBehavior {
    /// The wire name of a variant.
    pub open spec fn name(self) -> Seq<char> {
        match self {
            Self::Exclusive => "exclusive"@,
            Self::Inclusive => "inclusive"@,
            Self::Unspecified => "unspecified"@,
        }
    }

    /// The variant that a wire name stands for, if any.
    pub open spec fn from_name(s: Seq<char>) -> Option<Self> {
        if s == "exclusive"@ {
            Some(Self::Exclusive)
        } else if s == "inclusive"@ {
            Some(Self::Inclusive)
        } else if s == "unspecified"@ {
            Some(Self::Unspecified)
        } else {
            None
        }
    }

    /// The wire name of an optional variant.
    pub open spec fn opt_name(value: Option<Self>) -> Option<Seq<char>> {
        match value {
            Some(v) => Some(v.name()),
            None => None,
        }
    }

    /// The wire name of the variant.
    pub fn as_str(self) -> (r: &'static str)
        ensures
            r@ == self.name(),
    {
        match self {
            Self::Exclusive => "exclusive",
            Self::Inclusive => "inclusive",
            Self::Unspecified => "unspecified",
        }
    }

    /// The wire name of an optional variant.
    pub fn opt_str(value: Option<Self>) -> (r: Option<&'static str>)
        ensures
            opt_str_view(r) == Self::opt_name(value),
    {
        match value {
            Some(v) => Some(v.as_str()),
            None => None,
        }
    }

    /// Parses a wire name; any other text is an error.
    pub fn from_str(s: &str) -> (r: Result<Self, StripeParseError>)
        ensures
            r.ok() == Self::from_name(s@),
    {
        if str_eq(s, "exclusive") {
            Ok(Self::Exclusive)
        } else if str_eq(s, "inclusive") {
            Ok(Self::Inclusive)
        } else if str_eq(s, "unspecified") {
            Ok(Self::Unspecified)
        } else {
            Err(StripeParseError)
        }
    }

    /// Every variant is found again from its wire name, and from no other
    /// text.
    pub proof fn lemma_name_round_trip(v: Self, s: Seq<char>)
        ensures
            Self::from_name(v.name()) == Some(v),
            Self::from_name(s) == Some(v) <==> s == v.name(),
    {
        reveal_strlit("exclusive");
        reveal_strlit("inclusive");
        reveal_strlit("unspecified");
        assert("exclusive"@.len() == 9);
        assert("inclusive"@.len() == 9);
        assert("unspecified"@.len() == 11);
        assert("exclusive"@[0] == 'e');
        assert("inclusive"@[0] == 'i');
    }

    /// A text that is no variant's wire name decodes to an unknown-variant
    /// error that carries the text.
    pub proof fn lemma_unknown_name_rejected(s: Seq<char>)
        requires
            forall|v: Self| v.name() != s,
        ensures
            Self::decoded(JsonView::String(s)) == Err::<Self, DecodeErrorView>(
                DecodeErrorView::UnknownEnumVariant {
                    enum_name: "CreateSubscriptionItemPriceDataTaxBehavior"@,
                    raw_value: s,
                },
            ),
    {
        assert(Self::Exclusive.name() != s);
        assert(Self::Inclusive.name() != s);
        assert(Self::Unspecified.name() != s);
    }
}

impl Decode for CreateSubscriptionItemPriceDataTaxBehavior {
    /// A string decodes to the variant it names, or to an unknown-variant
    /// error; anything but a string is a type mismatch.
    open spec fn decoded(json: JsonView) -> Result<Self, DecodeErrorView> {
        match json {
            JsonView::String(s) => match Self::from_name(s) {
                Some(v) => Ok(v),
                None => Err(
                    DecodeErrorView::UnknownEnumVariant {
                        enum_name: "CreateSubscriptionItemPriceDataTaxBehavior"@,
                        raw_value: s,
                    },
                ),
            },
            other => Err(
                DecodeErrorView::TypeMismatch {
                    record: "CreateSubscriptionItemPriceDataTaxBehavior"@,
                    field: ""@,
                    expected: JsonKind::String,
                    actual: other.kind(),
                },
            ),
        }
    }

    fn decode(json: &Json) -> (r: Result<Self, DecodeError>) {
        match json {
            Json::String(s) => match Self::from_str(s.as_str()) {
                Ok(v) => Ok(v),
                Err(_) => Err(
                    DecodeError::UnknownEnumVariant {
                        enum_name: "CreateSubscriptionItemPriceDataTaxBehavior",
                        raw_value: s.clone(),
                    },
                ),
            },
            other => Err(
                DecodeError::TypeMismatch {
                    record: "CreateSubscriptionItemPriceDataTaxBehavior",
                    field: "",
                    expected: JsonKind::String,
                    actual: other.kind(),
                },
            ),
        }
    }
}

impl std::str::FromStr for CreateSubscriptionItemPriceDataTaxBehavior {
    type Err = StripeParseError;

    fn from_str(s: &str) -> (r: Result<Self, StripeParseError>)
        ensures
            r.ok() == Self::from_name(s@),
    {
        CreateSubscriptionItemPriceDataTaxBehavior::from_str(s)
    }
}

/// Determines how to handle prorations when the billing cycle changes (for
/// example when switching plans or starting a trial), or if an item's
/// `quantity` changes. The default value is `create_prorations`.
#[derive(Copy, Clone, Debug, PartialEq, Eq, Structural)]
pub enum CreateSubscriptionItemProrationBehavior {
    AlwaysInvoice,
    CreateProrations,
    NoProrations,
}

impl View for CreateSubscriptionItemProrationBehavior {
    type V = Self;

    open spec fn view(&self) -> Self {
        *self
    }
}

impl CreateSubscriptionItemProrationBehavior {
    /// The wire name of a variant.
    pub open spec fn name(self) -> Seq<char> {
        match self {
            Self::AlwaysInvoice => "always_invoice"@,
            Self::CreateProrations => "create_prorations"@,
            Self::NoProrations => "none"@,
        }
    }

    /// The variant that a wire name stands for, if any.
    pub open spec fn from_name(s: Seq<char>) -> Option<Self> {
        if s == "always_invoice"@ {
            Some(Self::AlwaysInvoice)
        } else if s == "create_prorations"@ {
            Some(Self::CreateProrations)
        } else if s == "none"@ {
            Some(Self::NoProrations)
        } else {
            None
        }
    }

    /// The wire name of an optional variant.
    pub open spec fn opt_name(value: Option<Self>) -> Option<Seq<char>> {
        match value {
            Some(v) => Some(v.name()),
            None => None,
        }
    }

    /// The wire name of the variant.
    pub fn as_str(self) -> (r: &'static str)
        ensures
            r@ == self.name(),
    {
        match self {
            Self::AlwaysInvoice => "always_invoice",
            Self::CreateProrations => "create_prorations",
            Self::NoProrations => "none",
        }
    }

    /// The wire name of an optional variant.
    pub fn opt_str(value: Option<Self>) -> (r: Option<&'static str>)
        ensures
            opt_str_view(r) == Self::opt_name(value),
    {
        match value {
            Some(v) => Some(v.as_str()),
            None => None,
        }
    }

    /// Parses a wire name; any other text is an error.
    pub fn from_str(s: &str) -> (r: Result<Self, StripeParseError>)
        ensures
            r.ok() == Self::from_name(s@),
    {
        if str_eq(s, "always_invoice") {
            Ok(Self::AlwaysInvoice)
        } else if str_eq(s, "create_prorations") {
            Ok(Self::CreateProrations)
        } else if str_eq(s, "none") {
            Ok(Self::NoProrations)
        } else {
            Err(StripeParseError)
        }
    }

    /// Every variant is found again from its wire name, and from no other
    /// text.
    pub proof fn lemma_name_round_trip(v: Self, s: Seq<char>)
        ensures
            Self::from_name(v.name()) == Some(v),
            Self::from_name(s) == Some(v) <==> s == v.name(),
    {
        reveal_strlit("always_invoice");
        reveal_strlit("create_prorations");
        reveal_strlit("none");
        assert("always_invoice"@.len() == 14);
        assert("create_prorations"@.len() == 17);
        assert("none"@.len() == 4);
    }

    /// A text that is no variant's wire name decodes to an unknown-variant
    /// error that carries the text.
    pub proof fn lemma_unknown_name_rejected(s: Seq<char>)
        requires
            forall|v: Self| v.name() != s,
        ensures
            Self::decoded(JsonView::String(s)) == Err::<Self, DecodeErrorView>(
                DecodeErrorView::UnknownEnumVariant {
                    enum_name: "CreateSubscriptionItemProrationBehavior"@,
                    raw_value: s,
                },
            ),
    {
        assert(Self::AlwaysInvoice.name() != s);
        assert(Self::CreateProrations.name() != s);
        assert(Self::NoProrations.name() != s);
    }
}

impl Decode for CreateSubscriptionItemProrationBehavior {
    /// A string decodes to the variant it names, or to an unknown-variant
    /// error; anything but a string is a type mismatch.
    open spec fn decoded(json: JsonView) -> Result<Self, DecodeErrorView> {
        match json {
            JsonView::String(s) => match Self::from_name(s) {
                Some(v) => Ok(v),
                None => Err(
                    DecodeErrorView::UnknownEnumVariant {
                        enum_name: "CreateSubscriptionItemProrationBehavior"@,
                        raw_value: s,
                    },
                ),
            },
            other => Err(
                DecodeErrorView::TypeMismatch {
                    record: "CreateSubscriptionItemProrationBehavior"@,
                    field: ""@,
                    expected: JsonKind::String,
                    actual: other.kind(),
                },
            ),
        }
    }

    fn decode(json: &Json) -> (r: Result<Self, DecodeError>) {
        match json {
            Json::String(s) => match Self::from_str(s.as_str()) {
                Ok(v) => Ok(v),
                Err(_) => Err(
                    DecodeError::UnknownEnumVariant {
                        enum_name: "CreateSubscriptionItemProrationBehavior",
                        raw_value: s.clone(),
                    },
                ),
            },
            other => Err(
                DecodeError::TypeMismatch {
                    record: "CreateSubscriptionItemProrationBehavior",
                    field: "",
                    expected: JsonKind::String,
                    actual: other.kind(),
                },
            ),
        }
    }
}

impl std::str::FromStr for CreateSubscriptionItemProrationBehavior {
    type Err = StripeParseError;

    fn from_str(s: &str) -> (r: Result<Self, StripeParseError>)
        ensures
            r.ok() == Self::from_name(s@),
    {
        CreateSubscriptionItemProrationBehavior::from_str(s)
    }
}

/// Adds a new item to an existing subscription. No existing items will be
/// changed or replaced.
#[derive(Clone, Debug)]
pub struct CreateSubscriptionItem<'a> {
    pub inner: CreateSubscriptionItemBuilder<'a>,
}

impl<'a> CreateSubscriptionItem<'a> {
    /// Construct a new `CreateSubscriptionItem`.
    pub fn new(subscription: &'a str) -> (r: Self)
        ensures
            r == (CreateSubscriptionItem {
                inner: CreateSubscriptionItemBuilder::initial(subscription),
            }),
    {
        CreateSubscriptionItem { inner: CreateSubscriptionItemBuilder::new(subscription) }
    }

    /// Thresholds at which an invoice is sent and the subscription moves to a
    /// new billing period.
    pub fn billing_thresholds(self, billing_thresholds: ItemBillingThresholdsParam) -> (r: Self)
        ensures
            r == (CreateSubscriptionItem {
                inner: (CreateSubscriptionItemBuilder {
                    billing_thresholds: Some(billing_thresholds),
                    ..self.inner
                }),
            }),
    {
        let mut r = self;
        r.inner.billing_thresholds = Some(billing_thresholds);
        r
    }

    /// The coupons to redeem into discounts for the subscription item.
    pub fn discounts(self, discounts: &'a [DiscountsDataParam<'a>]) -> (r: Self)
        ensures
            r == (CreateSubscriptionItem {
                inner: (CreateSubscriptionItemBuilder { discounts: Some(discounts), ..self.inner }),
            }),
    {
        let mut r = self;
        r.inner.discounts = Some(discounts);
        r
    }

    /// Specifies which fields in the response should be expanded.
    pub fn expand(self, expand: &'a [&'a str]) -> (r: Self)
        ensures
            r == (CreateSubscriptionItem {
                inner: (CreateSubscriptionItemBuilder { expand: Some(expand), ..self.inner }),
            }),
    {
        let mut r = self;
        r.inner.expand = Some(expand);
        r
    }

    /// Key/value pairs to attach to the object. A key is unset by posting an
    /// empty value to it.
    pub fn metadata(self, metadata: &'a Metadata) -> (r: Self)
        ensures
            r == (CreateSubscriptionItem {
                inner: (CreateSubscriptionItemBuilder { metadata: Some(metadata), ..self.inner }),
            }),
    {
        let mut r = self;
        r.inner.metadata = Some(metadata);
        r
    }

    /// How to proceed when a payment is required but cannot be made at once.
    ///
    /// `allow_incomplete` moves the subscription to `past_due`; this is the
    /// default. `default_incomplete` does the same and waits for an explicit
    /// confirmation of the invoice's payment intent. `pending_if_incomplete`
    /// applies the change as a pending update. `error_if_incomplete` makes the
    /// request fail with HTTP 402 instead.
    pub fn payment_behavior(
        self,
        payment_behavior: CreateSubscriptionItemPaymentBehavior,
    ) -> (r: Self)
        ensures
            r == (CreateSubscriptionItem {
                inner: (CreateSubscriptionItemBuilder {
                    payment_behavior: Some(payment_behavior),
                    ..self.inner
                }),
            }),
    {
        let mut r = self;
        r.inner.payment_behavior = Some(payment_behavior);
        r
    }

    /// The identifier of the plan.
    pub fn plan(self, plan: &'a str) -> (r: Self)
        ensures
            r == (CreateSubscriptionItem {
                inner: (CreateSubscriptionItemBuilder { plan: Some(plan), ..self.inner }),
            }),
    {
        let mut r = self;
        r.inner.plan = Some(plan);
        r
    }

    /// The ID of the price object.
    pub fn price(self, price: &'a str) -> (r: Self)
        ensures
            r == (CreateSubscriptionItem {
                inner: (CreateSubscriptionItemBuilder { price: Some(price), ..self.inner }),
            }),
    {
        let mut r = self;
        r.inner.price = Some(price);
        r
    }

    /// Data used to generate a new price object inline.
    pub fn price_data(self, price_data: CreateSubscriptionItemPriceData<'a>) -> (r: Self)
        ensures
            r == (CreateSubscriptionItem {
                inner: (CreateSubscriptionItemBuilder {
                    price_data: Some(price_data),
                    ..self.inner
                }),
            }),
    {
        let mut r = self;
        r.inner.price_data = Some(price_data);
        r
    }

    /// Determines how to handle prorations when the billing cycle changes (for
    /// example when switching plans or starting a trial), or if an item's
    /// `quantity` changes. The default value is `create_prorations`.
    pub fn proration_behavior(
        self,
        proration_behavior: CreateSubscriptionItemProrationBehavior,
    ) -> (r: Self)
        ensures
            r == (CreateSubscriptionItem {
                inner: (CreateSubscriptionItemBuilder {
                    proration_behavior: Some(proration_behavior),
                    ..self.inner
                }),
            }),
    {
        let mut r = self;
        r.inner.proration_behavior = Some(proration_behavior);
        r
    }

    /// If set, the proration is calculated as though the subscription was
    /// updated at the given time.
    pub fn proration_date(self, proration_date: Timestamp) -> (r: Self)
        ensures
            r == (CreateSubscriptionItem {
                inner: (CreateSubscriptionItemBuilder {
                    proration_date: Some(proration_date),
                    ..self.inner
                }),
            }),
    {
        let mut r = self;
        r.inner.proration_date = Some(proration_date);
        r
    }

    /// The quantity to apply to the subscription item.
    pub fn quantity(self, quantity: u64) -> (r: Self)
        ensures
            r == (CreateSubscriptionItem {
                inner: (CreateSubscriptionItemBuilder { quantity: Some(quantity), ..self.inner }),
            }),
    {
        let mut r = self;
        r.inner.quantity = Some(quantity);
        r
    }

    /// A list of tax rate ids, which override the default tax rates of the
    /// subscription.
    pub fn tax_rates(self, tax_rates: &'a [&'a str]) -> (r: Self)
        ensures
            r == (CreateSubscriptionItem {
                inner: (CreateSubscriptionItemBuilder { tax_rates: Some(tax_rates), ..self.inner }),
            }),
    {
        let mut r = self;
        r.inner.tax_rates = Some(tax_rates);
        r
    }

    /// The path of the endpoint.
    pub open spec fn spec_path(&self) -> Seq<char> {
        "/subscription_items"@
    }

    /// The request: the method, the path, and the parameters as a form.
    pub open spec fn spec_build(&self) -> RequestView {
        RequestView {
            method: StripeMethod::Post,
            path: self.spec_path(),
            query: None,
            body: Some(self.inner.spec_params()),
        }
    }

    /// Builds the path of the endpoint.
    pub fn path(&self) -> (r: String)
        ensures
            r@ == self.spec_path(),
    {
        "/subscription_items".to_owned()
    }

    /// Builds the request for the HTTP client.
    pub fn build(&self) -> (r: RequestBuilder)
        ensures
            r@ == self.spec_build(),
    {
        RequestBuilder::new(StripeMethod::Post, self.path()).form(self.inner.params())
    }
}

/// The parameters of [`UpdateSubscriptionItem`].
#[derive(Clone, Debug)]
pub struct UpdateSubscriptionItemBuilder<'a> {
    /// Thresholds at which an invoice is sent and the subscription moves to a
    /// new billing period.
    pub billing_thresholds: Option<ItemBillingThresholdsParam>,
    /// The coupons to redeem into discounts for the subscription item.
    pub discounts: Option<&'a [DiscountsDataParam<'a>]>,
    /// Specifies which fields in the response should be expanded.
    pub expand: Option<&'a [&'a str]>,
    /// Key/value pairs to attach to the object. A key is unset by posting an
    /// empty value to it.
    pub metadata: Option<&'a Metadata>,
    /// Whether the customer is absent while the request is made. Defaults to
    /// `false`.
    pub off_session: Option<bool>,
    /// How to proceed when a payment is required but cannot be made at once.
    ///
    /// `allow_incomplete` moves the subscription to `past_due`; this is the
    /// default. `default_incomplete` does the same and waits for an explicit
    /// confirmation of the invoice's payment intent. `pending_if_incomplete`
    /// applies the change as a pending update. `error_if_incomplete` makes the
    /// request fail with HTTP 402 instead.
    pub payment_behavior: Option<UpdateSubscriptionItemPaymentBehavior>,
    /// The identifier of the new plan for this subscription item.
    pub plan: Option<&'a str>,
    /// The ID of the price object.
    pub price: Option<&'a str>,
    /// Data used to generate a new price object inline.
    pub price_data: Option<UpdateSubscriptionItemPriceData<'a>>,
    /// Determines how to handle prorations when the billing cycle changes (for
    /// example when switching plans or starting a trial), or if an item's
    /// `quantity` changes. The default value is `create_prorations`.
    pub proration_behavior: Option<UpdateSubscriptionItemProrationBehavior>,
    /// If set, the proration is calculated as though the subscription was
    /// updated at the given time.
    pub proration_date: Option<Timestamp>,
    /// The quantity to apply to the subscription item.
    pub quantity: Option<u64>,
    /// A list of tax rate ids, which override the default tax rates of the
    /// subscription.
    pub tax_rates: Option<&'a [&'a str]>,
}

impl<'a> UpdateSubscriptionItemBuilder<'a> {
    /// The record with nothing set.
    pub open spec fn initial() -> Self {
        UpdateSubscriptionItemBuilder {
            billing_thresholds: None,
            discounts: None,
            expand: None,
            metadata: None,
            off_session: None,
            payment_behavior: None,
            plan: None,
            price: None,
            price_data: None,
            proration_behavior: None,
            proration_date: None,
            quantity: None,
            tax_rates: None,
        }
    }

    /// Makes the record with nothing set.
    pub fn new() -> (r: Self)
        ensures
            r == Self::initial(),
    {
        UpdateSubscriptionItemBuilder {
            billing_thresholds: None,
            discounts: None,
            expand: None,
            metadata: None,
            off_session: None,
            payment_behavior: None,
            plan: None,
            price: None,
            price_data: None,
            proration_behavior: None,
            proration_date: None,
            quantity: None,
            tax_rates: None,
        }
    }

    /// The parameters `start` followed by those of the record keyed by
    /// `prefix`: one for every field that is set, in the order of
    /// declaration.
    pub open spec fn appended(&self, start: Pairs, prefix: Seq<char>) -> Pairs {
        let p = match &self.billing_thresholds {
            Some(v) => v.appended(start, field_key(prefix, "billing_thresholds"@)),
            None => start,
        };
        let p = match self.discounts {
            Some(items) => DiscountsDataParam::list_appended(
                p,
                field_key(prefix, "discounts"@),
                items@,
            ),
            None => p,
        };
        let p = p + opt_text_list(field_key(prefix, "expand"@), opt_list_view(self.expand));
        let p = match self.metadata {
            Some(m) => p + metadata_params(field_key(prefix, "metadata"@), m@),
            None => p,
        };
        let p = p + opt_bool(field_key(prefix, "off_session"@), self.off_session);
        let p = p + opt_text(
            field_key(prefix, "payment_behavior"@),
            UpdateSubscriptionItemPaymentBehavior::opt_name(self.payment_behavior),
        );
        let p = p + opt_text(field_key(prefix, "plan"@), opt_str_view(self.plan));
        let p = p + opt_text(field_key(prefix, "price"@), opt_str_view(self.price));
        let p = match &self.price_data {
            Some(v) => v.appended(p, field_key(prefix, "price_data"@)),
            None => p,
        };
        let p = p + opt_text(
            field_key(prefix, "proration_behavior"@),
            UpdateSubscriptionItemProrationBehavior::opt_name(self.proration_behavior),
        );
        let p = p + opt_int(field_key(prefix, "proration_date"@), self.proration_date);
        let p = p + opt_nat(field_key(prefix, "quantity"@), self.quantity);
        p + opt_text_list(field_key(prefix, "tax_rates"@), opt_list_view(self.tax_rates))
    }

    /// Appends the parameters of the record keyed by `prefix`.
    pub fn push_params(&self, out: &mut Vec<Param>, prefix: &str)
        ensures
            pairs(final(out)@) == self.appended(pairs(old(out)@), prefix@),
    {
        if let Some(v) = &self.billing_thresholds {
            v.push_params(out, make_field_key(prefix, "billing_thresholds").as_str());
        }
        if let Some(items) = self.discounts {
            DiscountsDataParam::push_list_params(
                out,
                make_field_key(prefix, "discounts").as_str(),
                items,
            );
        }
        push_opt_text_list(out, prefix, "expand", self.expand);
        if let Some(m) = self.metadata {
            m.push_params(out, prefix, "metadata");
        }
        push_opt_bool(out, prefix, "off_session", self.off_session);
        push_opt_text(
            out,
            prefix,
            "payment_behavior",
            UpdateSubscriptionItemPaymentBehavior::opt_str(self.payment_behavior),
        );
        push_opt_text(out, prefix, "plan", self.plan);
        push_opt_text(out, prefix, "price", self.price);
        if let Some(v) = &self.price_data {
            v.push_params(out, make_field_key(prefix, "price_data").as_str());
        }
        push_opt_text(
            out,
            prefix,
            "proration_behavior",
            UpdateSubscriptionItemProrationBehavior::opt_str(self.proration_behavior),
        );
        push_opt_i64(out, prefix, "proration_date", self.proration_date);
        push_opt_u64(out, prefix, "quantity", self.quantity);
        push_opt_text_list(out, prefix, "tax_rates", self.tax_rates);
    }

    /// The parameters of the request.
    pub open spec fn spec_params(&self) -> Pairs {
        self.appended(Seq::empty(), Seq::empty())
    }

    /// The parameters of the request.
    pub fn params(&self) -> (r: Vec<Param>)
        ensures
            pairs(r@) == self.spec_params(),
    {
        let mut out = no_params();
        self.push_params(&mut out, top_level());
        out
    }
}

/// How to proceed when a payment is required but cannot be made at once.
///
/// `allow_incomplete` moves the subscription to `past_due`; this is the
/// default. `default_incomplete` does the same and waits for an explicit
/// confirmation of the invoice's payment intent. `pending_if_incomplete`
/// applies the change as a pending update. `error_if_incomplete` makes the
/// request fail with HTTP 402 instead.
#[derive(Copy, Clone, Debug, PartialEq, Eq, Structural)]
pub enum UpdateSubscriptionItemPaymentBehavior {
    AllowIncomplete,
    DefaultIncomplete,
    ErrorIfIncomplete,
    PendingIfIncomplete,
}

impl View for UpdateSubscriptionItemPaymentBehavior {
    type V = Self;

    open spec fn view(&self) -> Self {
        *self
    }
}

impl UpdateSubscriptionItemPaymentBehavior {
    /// The wire name of a variant.
    pub open spec fn name(self) -> Seq<char> {
        match self {
            Self::AllowIncomplete => "allow_incomplete"@,
            Self::DefaultIncomplete => "default_incomplete"@,
            Self::ErrorIfIncomplete => "error_if_incomplete"@,
            Self::PendingIfIncomplete => "pending_if_incomplete"@,
        }
    }

    /// The variant that a wire name stands for, if any.
    pub open spec fn from_name(s: Seq<char>) -> Option<Self> {
        if s == "allow_incomplete"@ {
            Some(Self::AllowIncomplete)
        } else if s == "default_incomplete"@ {
            Some(Self::DefaultIncomplete)
        } else if s == "error_if_incomplete"@ {
            Some(Self::ErrorIfIncomplete)
        } else if s == "pending_if_incomplete"@ {
            Some(Self::PendingIfIncomplete)
        } else {
            None
        }
    }

    /// The wire name of an optional variant.
    pub open spec fn opt_name(value: Option<Self>) -> Option<Seq<char>> {
        match value {
            Some(v) => Some(v.name()),
            None => None,
        }
    }

    /// The wire name of the variant.
    pub fn as_str(self) -> (r: &'static str)
        ensures
            r@ == self.name(),
    {
        match self {
            Self::AllowIncomplete => "allow_incomplete",
            Self::DefaultIncomplete => "default_incomplete",
            Self::ErrorIfIncomplete => "error_if_incomplete",
            Self::PendingIfIncomplete => "pending_if_incomplete",
        }
    }

    /// The wire name of an optional variant.
    pub fn opt_str(value: Option<Self>) -> (r: Option<&'static str>)
        ensures
            opt_str_view(r) == Self::opt_name(value),
    {
        match value {
            Some(v) => Some(v.as_str()),
            None => None,
        }
    }

    /// Parses a wire name; any other text is an error.
    pub fn from_str(s: &str) -> (r: Result<Self, StripeParseError>)
        ensures
            r.ok() == Self::from_name(s@),
    {
        if str_eq(s, "allow_incomplete") {
            Ok(Self::AllowIncomplete)
        } else if str_eq(s, "default_incomplete") {
            Ok(Self::DefaultIncomplete)
        } else if str_eq(s, "error_if_incomplete") {
            Ok(Self::ErrorIfIncomplete)
        } else if str_eq(s, "pending_if_incomplete") {
            Ok(Self::PendingIfIncomplete)
        } else {
            Err(StripeParseError)
        }
    }

    /// Every variant is found again from its wire name, and from no other
    /// text.
    pub proof fn lemma_name_round_trip(v: Self, s: Seq<char>)
        ensures
            Self::from_name(v.name()) == Some(v),
            Self::from_name(s) == Some(v) <==> s == v.name(),
    {
        reveal_strlit("allow_incomplete");
        reveal_strlit("default_incomplete");
        reveal_strlit("error_if_incomplete");
        reveal_strlit("pending_if_incomplete");
        assert("allow_incomplete"@.len() == 16);
        assert("default_incomplete"@.len() == 18);
        assert("error_if_incomplete"@.len() == 19);
        assert("pending_if_incomplete"@.len() == 21);
    }

    /// A text that is no variant's wire name decodes to an unknown-variant
    /// error that carries the text.
    pub proof fn lemma_unknown_name_rejected(s: Seq<char>)
        requires
            forall|v: Self| v.name() != s,
        ensures
            Self::decoded(JsonView::String(s)) == Err::<Self, DecodeErrorView>(
                DecodeErrorView::UnknownEnumVariant {
                    enum_name: "UpdateSubscriptionItemPaymentBehavior"@,
                    raw_value: s,
                },
            ),
    {
        assert(Self::AllowIncomplete.name() != s);
        assert(Self::DefaultIncomplete.name() != s);
        assert(Self::ErrorIfIncomplete.name() != s);
        assert(Self::PendingIfIncomplete.name() != s);
    }
}

impl Decode for UpdateSubscriptionItemPaymentBehavior {
    /// A string decodes to the variant it names, or to an unknown-variant
    /// error; anything but a string is a type mismatch.
    open spec fn decoded(json: JsonView) -> Result<Self, DecodeErrorView> {
        match json {
            JsonView::String(s) => match Self::from_name(s) {
                Some(v) => Ok(v),
                None => Err(
                    DecodeErrorView::UnknownEnumVariant {
                        enum_name: "UpdateSubscriptionItemPaymentBehavior"@,
                        raw_value: s,
                    },
                ),
            },
            other => Err(
                DecodeErrorView::TypeMismatch {
                    record: "UpdateSubscriptionItemPaymentBehavior"@,
                    field: ""@,
                    expected: JsonKind::String,
                    actual: other.kind(),
                },
            ),
        }
    }

    fn decode(json: &Json) -> (r: Result<Self, DecodeError>) {
        match json {
            Json::String(s) => match Self::from_str(s.as_str()) {
                Ok(v) => Ok(v),
                Err(_) => Err(
                    DecodeError::UnknownEnumVariant {
                        enum_name: "UpdateSubscriptionItemPaymentBehavior",
                        raw_value: s.clone(),
                    },
                ),
            },
            other => Err(
                DecodeError::TypeMismatch {
                    record: "UpdateSubscriptionItemPaymentBehavior",
                    field: "",
                    expected: JsonKind::String,
                    actual: other.kind(),
                },
            ),
        }
    }
}

impl std::str::FromStr for UpdateSubscriptionItemPaymentBehavior {
    type Err = StripeParseError;

    fn from_str(s: &str) -> (r: Result<Self, StripeParseError>)
        ensures
            r.ok() == Self::from_name(s@),
    {
        UpdateSubscriptionItemPaymentBehavior::from_str(s)
    }
}

/// Data used to generate a new price object inline.
#[derive(Clone, Debug)]
pub struct UpdateSubscriptionItemPriceData<'a> {
    /// Three-letter ISO currency code, in lowercase.
    pub currency: Currency,
    /// The ID of the product that this price will belong to.
    pub product: &'a str,
    /// The recurring components of a price such as `interval` and
    /// `interval_count`.
    pub recurring: UpdateSubscriptionItemPriceDataRecurring,
    /// Whether the price is considered inclusive of taxes or exclusive of
    /// taxes. Once specified as either `inclusive` or `exclusive`, it cannot be
    /// changed.
    pub tax_behavior: Option<UpdateSubscriptionItemPriceDataTaxBehavior>,
    /// How much to charge, as a non-negative integer in cents (or local
    /// equivalent).
    pub unit_amount: Option<i64>,
    /// Same as `unit_amount`, but as a decimal text with at most 12 decimal
    /// places. Only one of the two can be set.
    pub unit_amount_decimal: Option<&'a str>,
}

impl<'a> UpdateSubscriptionItemPriceData<'a> {
    /// The record with the given values and nothing else set.
    pub open spec fn initial(
        currency: Currency,
        product: &'a str,
        recurring: UpdateSubscriptionItemPriceDataRecurring,
    ) -> Self {
        UpdateSubscriptionItemPriceData {
            currency,
            product,
            recurring,
            tax_behavior: None,
            unit_amount: None,
            unit_amount_decimal: None,
        }
    }

    /// Makes the record with the given values and nothing else set.
    pub fn new(
        currency: Currency,
        product: &'a str,
        recurring: UpdateSubscriptionItemPriceDataRecurring,
    ) -> (r: Self)
        ensures
            r == Self::initial(currency, product, recurring),
    {
        UpdateSubscriptionItemPriceData {
            currency,
            product,
            recurring,
            tax_behavior: None,
            unit_amount: None,
            unit_amount_decimal: None,
        }
    }

    /// The parameters `start` followed by those of the record keyed by
    /// `prefix`: one for every field that is set, in the order of
    /// declaration.
    pub open spec fn appended(&self, start: Pairs, prefix: Seq<char>) -> Pairs {
        let p = start + seq![(field_key(prefix, "currency"@), self.currency@)];
        let p = p + seq![(field_key(prefix, "product"@), self.product@)];
        let p = self.recurring.appended(p, field_key(prefix, "recurring"@));
        let p = p + opt_text(
            field_key(prefix, "tax_behavior"@),
            UpdateSubscriptionItemPriceDataTaxBehavior::opt_name(self.tax_behavior),
        );
        let p = p + opt_int(field_key(prefix, "unit_amount"@), self.unit_amount);
        p + opt_text(
            field_key(prefix, "unit_amount_decimal"@),
            opt_str_view(self.unit_amount_decimal),
        )
    }

    /// Appends the parameters of the record keyed by `prefix`.
    pub fn push_params(&self, out: &mut Vec<Param>, prefix: &str)
        ensures
            pairs(final(out)@) == self.appended(pairs(old(out)@), prefix@),
    {
        push_field_text(out, prefix, "currency", self.currency.as_str());
        push_field_text(out, prefix, "product", self.product);
        self.recurring.push_params(out, make_field_key(prefix, "recurring").as_str());
        push_opt_text(
            out,
            prefix,
            "tax_behavior",
            UpdateSubscriptionItemPriceDataTaxBehavior::opt_str(self.tax_behavior),
        );
        push_opt_i64(out, prefix, "unit_amount", self.unit_amount);
        push_opt_text(out, prefix, "unit_amount_decimal", self.unit_amount_decimal);
    }
}

/// The recurring components of a price such as `interval` and
/// `interval_count`.
#[derive(Copy, Clone, Debug)]
pub struct UpdateSubscriptionItemPriceDataRecurring {
    /// Specifies billing frequency. Either `day`, `week`, `month` or `year`.
    pub interval: UpdateSubscriptionItemPriceDataRecurringInterval,
    /// The number of intervals between subscription billings; at most three
    /// years in all.
    pub interval_count: Option<u64>,
}

impl UpdateSubscriptionItemPriceDataRecurring {
    /// The record with the given values and nothing else set.
    pub open spec fn initial(interval: UpdateSubscriptionItemPriceDataRecurringInterval) -> Self {
        UpdateSubscriptionItemPriceDataRecurring { interval, interval_count: None }
    }

    /// Makes the record with the given values and nothing else set.
    pub fn new(interval: UpdateSubscriptionItemPriceDataRecurringInterval) -> (r: Self)
        ensures
            r == Self::initial(interval),
    {
        UpdateSubscriptionItemPriceDataRecurring { interval, interval_count: None }
    }

    /// The parameters `start` followed by those of the record keyed by
    /// `prefix`: one for every field that is set, in the order of
    /// declaration.
    pub open spec fn appended(&self, start: Pairs, prefix: Seq<char>) -> Pairs {
        let p = start + seq![(field_key(prefix, "interval"@), self.interval.name())];
        p + opt_nat(field_key(prefix, "interval_count"@), self.interval_count)
    }

    /// Appends the parameters of the record keyed by `prefix`.
    pub fn push_params(&self, out: &mut Vec<Param>, prefix: &str)
        ensures
            pairs(final(out)@) == self.appended(pairs(old(out)@), prefix@),
    {
        push_field_text(out, prefix, "interval", self.interval.as_str());
        push_opt_u64(out, prefix, "interval_count", self.interval_count);
    }
}

/// Specifies billing frequency. Either `day`, `week`, `month` or `year`.
#[derive(Copy, Clone, Debug, PartialEq, Eq, Structural)]
pub enum UpdateSubscriptionItemPriceDataRecurringInterval {
    Day,
    Month,
    Week,
    Year,
}

impl View for UpdateSubscriptionItemPriceDataRecurringInterval {
    type V = Self;

    open spec fn view(&self) -> Self {
        *self
    }
}

impl UpdateSubscriptionItemPriceDataRecurringInterval {
    /// The wire name of a variant.
    pub open spec fn name(self) -> Seq<char> {
        match self {
            Self::Day => "day"@,
            Self::Month => "month"@,
            Self::Week => "week"@,
            Self::Year => "year"@,
        }
    }

    /// The variant that a wire name stands for, if any.
    pub open spec fn from_name(s: Seq<char>) -> Option<Self> {
        if s == "day"@ {
            Some(Self::Day)
        } else if s == "month"@ {
            Some(Self::Month)
        } else if s == "week"@ {
            Some(Self::Week)
        } else if s == "year"@ {
            Some(Self::Year)
        } else {
            None
        }
    }

    /// The wire name of an optional variant.
    pub open spec fn opt_name(value: Option<Self>) -> Option<Seq<char>> {
        match value {
            Some(v) => Some(v.name()),
            None => None,
        }
    }

    /// The wire name of the variant.
    pub fn as_str(self) -> (r: &'static str)
        ensures
            r@ == self.name(),
    {
        match self {
            Self::Day => "day",
            Self::Month => "month",
            Self::Week => "week",
            Self::Year => "year",
        }
    }

    /// The wire name of an optional variant.
    pub fn opt_str(value: Option<Self>) -> (r: Option<&'static str>)
        ensures
            opt_str_view(r) == Self::opt_name(value),
    {
        match value {
            Some(v) => Some(v.as_str()),
            None => None,
        }
    }

    /// Parses a wire name; any other text is an error.
    pub fn from_str(s: &str) -> (r: Result<Self, StripeParseError>)
        ensures
            r.ok() == Self::from_name(s@),
    {
        if str_eq(s, "day") {
            Ok(Self::Day)
        } else if str_eq(s, "month") {
            Ok(Self::Month)
        } else if str_eq(s, "week") {
            Ok(Self::Week)
        } else if str_eq(s, "year") {
            Ok(Self::Year)
        } else {
            Err(StripeParseError)
        }
    }

    /// Every variant is found again from its wire name, and from no other
    /// text.
    pub proof fn lemma_name_round_trip(v: Self, s: Seq<char>)
        ensures
            Self::from_name(v.name()) == Some(v),
            Self::from_name(s) == Some(v) <==> s == v.name(),
    {
        reveal_strlit("day");
        reveal_strlit("month");
        reveal_strlit("week");
        reveal_strlit("year");
        assert("day"@.len() == 3);
        assert("month"@.len() == 5);
        assert("week"@.len() == 4);
        assert("year"@.len() == 4);
        assert("week"@[0] == 'w');
        assert("year"@[0] == 'y');
    }

    /// A text that is no variant's wire name decodes to an unknown-variant
    /// error that carries the text.
    pub proof fn lemma_unknown_name_rejected(s: Seq<char>)
        requires
            forall|v: Self| v.name() != s,
        ensures
            Self::decoded(JsonView::String(s)) == Err::<Self, DecodeErrorView>(
                DecodeErrorView::UnknownEnumVariant {
                    enum_name: "UpdateSubscriptionItemPriceDataRecurringInterval"@,
                    raw_value: s,
                },
            ),
    {
        assert(Self::Day.name() != s);
        assert(Self::Month.name() != s);
        assert(Self::Week.name() != s);
        assert(Self::Year.name() != s);
    }
}

impl Decode for UpdateSubscriptionItemPriceDataRecurringInterval {
    /// A string decodes to the variant it names, or to an unknown-variant
    /// error; anything but a string is a type mismatch.
    open spec fn decoded(json: JsonView) -> Result<Self, DecodeErrorView> {
        match json {
            JsonView::String(s) => match Self::from_name(s) {
                Some(v) => Ok(v),
                None => Err(
                    DecodeErrorView::UnknownEnumVariant {
                        enum_name: "UpdateSubscriptionItemPriceDataRecurringInterval"@,
                        raw_value: s,
                    },
                ),
            },
            other => Err(
                DecodeErrorView::TypeMismatch {
                    record: "UpdateSubscriptionItemPriceDataRecurringInterval"@,
                    field: ""@,
                    expected: JsonKind::String,
                    actual: other.kind(),
                },
            ),
        }
    }

    fn decode(json: &Json) -> (r: Result<Self, DecodeError>) {
        match json {
            Json::String(s) => match Self::from_str(s.as_str()) {
                Ok(v) => Ok(v),
                Err(_) => Err(
                    DecodeError::UnknownEnumVariant {
                        enum_name: "UpdateSubscriptionItemPriceDataRecurringInterval",
                        raw_value: s.clone(),
                    },
                ),
            },
            other => Err(
                DecodeError::TypeMismatch {
                    record: "UpdateSubscriptionItemPriceDataRecurringInterval",
                    field: "",
                    expected: JsonKind::String,
                    actual: other.kind(),
                },
            ),
        }
    }
}

impl std::str::FromStr for UpdateSubscriptionItemPriceDataRecurringInterval {
    type Err = StripeParseError;

    fn from_str(s: &str) -> (r: Result<Self, StripeParseError>)
        ensures
            r.ok() == Self::from_name(s@),
    {
        UpdateSubscriptionItemPriceDataRecurringInterval::from_str(s)
    }
}

/// Whether the price is considered inclusive of taxes or exclusive of
/// taxes. Once specified as either `inclusive` or `exclusive`, it cannot be
/// changed.
#[derive(Copy, Clone, Debug, PartialEq, Eq, Structural)]
pub enum UpdateSubscriptionItemPriceDataTaxBehavior {
    Exclusive,
    Inclusive,
    Unspecified,
}

impl View for UpdateSubscriptionItemPriceDataTaxBehavior {
    type V = Self;

    open spec fn view(&self) -> Self {
        *self
    }
}

impl UpdateSubscriptionItemPriceDataTaxBehavior {
    /// The wire name of a variant.
    pub open spec fn name(self) -> Seq<char> {
        match self {
            Self::Exclusive => "exclusive"@,
            Self::Inclusive => "inclusive"@,
            Self::Unspecified => "unspecified"@,
        }
    }

    /// The variant that a wire name stands for, if any.
    pub open spec fn from_name(s: Seq<char>) -> Option<Self> {
        if s == "exclusive"@ {
            Some(Self::Exclusive)
        } else if s == "inclusive"@ {
            Some(Self::Inclusive)
        } else if s == "unspecified"@ {
            Some(Self::Unspecified)
        } else {
            None
        }
    }

    /// The wire name of an optional variant.
    pub open spec fn opt_name(value: Option<Self>) -> Option<Seq<char>> {
        match value {
            Some(v) => Some(v.name()),
            None => None,
        }
    }

    /// The wire name of the variant.
    pub fn as_str(self) -> (r: &'static str)
        ensures
            r@ == self.name(),
    {
        match self {
            Self::Exclusive => "exclusive",
            Self::Inclusive => "inclusive",
            Self::Unspecified => "unspecified",
        }
    }

    /// The wire name of an optional variant.
    pub fn opt_str(value: Option<Self>) -> (r: Option<&'static str>)
        ensures
            opt_str_view(r) == Self::opt_name(value),
    {
        match value {
            Some(v) => Some(v.as_str()),
            None => None,
        }
    }

    /// Parses a wire name; any other text is an error.
    pub fn from_str(s: &str) -> (r: Result<Self, StripeParseError>)
        ensures
            r.ok() == Self::from_name(s@),
    {
        if str_eq(s, "exclusive") {
            Ok(Self::Exclusive)
        } else if str_eq(s, "inclusive") {
            Ok(Self::Inclusive)
        } else if str_eq(s, "unspecified") {
            Ok(Self::Unspecified)
        } else {
            Err(StripeParseError)
        }
    }

    /// Every variant is found again from its wire name, and from no other
    /// text.
    pub proof fn lemma_name_round_trip(v: Self, s: Seq<char>)
        ensures
            Self::from_name(v.name()) == Some(v),
            Self::from_name(s) == Some(v) <==> s == v.name(),
    {
        reveal_strlit("exclusive");
        reveal_strlit("inclusive");
        reveal_strlit("unspecified");
        assert("exclusive"@.len() == 9);
        assert("inclusive"@.len() == 9);
        assert("unspecified"@.len() == 11);
        assert("exclusive"@[0] == 'e');
        assert("inclusive"@[0] == 'i');
    }

    /// A text that is no variant's wire name decodes to an unknown-variant
    /// error that carries the text.
    pub proof fn lemma_unknown_name_rejected(s: Seq<char>)
        requires
            forall|v: Self| v.name() != s,
        ensures
            Self::decoded(JsonView::String(s)) == Err::<Self, DecodeErrorView>(
                DecodeErrorView::UnknownEnumVariant {
                    enum_name: "UpdateSubscriptionItemPriceDataTaxBehavior"@,
                    raw_value: s,
                },
            ),
    {
        assert(Self::Exclusive.name() != s);
        assert(Self::Inclusive.name() != s);
        assert(Self::Unspecified.name() != s);
    }
}

impl Decode for UpdateSubscriptionItemPriceDataTaxBehavior {
    /// A string decodes to the variant it names, or to an unknown-variant
    /// error; anything but a string is a type mismatch.
    open spec fn decoded(json: JsonView) -> Result<Self, DecodeErrorView> {
        match json {
            JsonView::String(s) => match Self::from_name(s) {
                Some(v) => Ok(v),
                None => Err(
                    DecodeErrorView::UnknownEnumVariant {
                        enum_name: "UpdateSubscriptionItemPriceDataTaxBehavior"@,
                        raw_value: s,
                    },
                ),
            },
            other => Err(
                DecodeErrorView::TypeMismatch {
                    record: "UpdateSubscriptionItemPriceDataTaxBehavior"@,
                    field: ""@,
                    expected: JsonKind::String,
                    actual: other.kind(),
                },
            ),
        }
    }

    fn decode(json: &Json) -> (r: Result<Self, DecodeError>) {
        match json {
            Json::String(s) => match Self::from_str(s.as_str()) {
                Ok(v) => Ok(v),
                Err(_) => Err(
                    DecodeError::UnknownEnumVariant {
                        enum_name: "UpdateSubscriptionItemPriceDataTaxBehavior",
                        raw_value: s.clone(),
                    },
                ),
            },
            other => Err(
                DecodeError::TypeMismatch {
                    record: "UpdateSubscriptionItemPriceDataTaxBehavior",
                    field: "",
                    expected: JsonKind::String,
                    actual: other.kind(),
                },
            ),
        }
    }
}

impl std::str::FromStr for UpdateSubscriptionItemPriceDataTaxBehavior {
    type Err = StripeParseError;

    fn from_str(s: &str) -> (r: Result<Self, StripeParseError>)
        ensures
            r.ok() == Self::from_name(s@),
    {
        UpdateSubscriptionItemPriceDataTaxBehavior::from_str(s)
    }
}

/// Determines how to handle prorations when the billing cycle changes (for
/// example when switching plans or starting a trial), or if an item's
/// `quantity` changes. The default value is `create_prorations`.
#[derive(Copy, Clone, Debug, PartialEq, Eq, Structural)]
pub enum UpdateSubscriptionItemProrationBehavior {
    AlwaysInvoice,
    CreateProrations,
    NoProrations,
}

impl View for UpdateSubscriptionItemProrationBehavior {
    type V = Self;

    open spec fn view(&self) -> Self {
        *self
    }
}

impl UpdateSubscriptionItemProrationBehavior {
    /// The wire name of a variant.
    pub open spec fn name(self) -> Seq<char> {
        match self {
            Self::AlwaysInvoice => "always_invoice"@,
            Self::CreateProrations => "create_prorations"@,
            Self::NoProrations => "none"@,
        }
    }

    /// The variant that a wire name stands for, if any.
    pub open spec fn from_name(s: Seq<char>) -> Option<Self> {
        if s == "always_invoice"@ {
            Some(Self::AlwaysInvoice)
        } else if s == "create_prorations"@ {
            Some(Self::CreateProrations)
        } else if s == "none"@ {
            Some(Self::NoProrations)
        } else {
            None
        }
    }

    /// The wire name of an optional variant.
    pub open spec fn opt_name(value: Option<Self>) -> Option<Seq<char>> {
        match value {
            Some(v) => Some(v.name()),
            None => None,
        }
    }

    /// The wire name of the variant.
    pub fn as_str(self) -> (r: &'static str)
        ensures
            r@ == self.name(),
    {
        match self {
            Self::AlwaysInvoice => "always_invoice",
            Self::CreateProrations => "create_prorations",
            Self::NoProrations => "none",
        }
    }

    /// The wire name of an optional variant.
    pub fn opt_str(value: Option<Self>) -> (r: Option<&'static str>)
        ensures
            opt_str_view(r) == Self::opt_name(value),
    {
        match value {
            Some(v) => Some(v.as_str()),
            None => None,
        }
    }

    /// Parses a wire name; any other text is an error.
    pub fn from_str(s: &str) -> (r: Result<Self, StripeParseError>)
        ensures
            r.ok() == Self::from_name(s@),
    {
        if str_eq(s, "always_invoice") {
            Ok(Self::AlwaysInvoice)
        } else if str_eq(s, "create_prorations") {
            Ok(Self::CreateProrations)
        } else if str_eq(s, "none") {
            Ok(Self::NoProrations)
        } else {
            Err(StripeParseError)
        }
    }

    /// Every variant is found again from its wire name, and from no other
    /// text.
    pub proof fn lemma_name_round_trip(v: Self, s: Seq<char>)
        ensures
            Self::from_name(v.name()) == Some(v),
            Self::from_name(s) == Some(v) <==> s == v.name(),
    {
        reveal_strlit("always_invoice");
        reveal_strlit("create_prorations");
        reveal_strlit("none");
        assert("always_invoice"@.len() == 14);
        assert("create_prorations"@.len() == 17);
        assert("none"@.len() == 4);
    }

    /// A text that is no variant's wire name decodes to an unknown-variant
    /// error that carries the text.
    pub proof fn lemma_unknown_name_rejected(s: Seq<char>)
        requires
            forall|v: Self| v.name() != s,
        ensures
            Self::decoded(JsonView::String(s)) == Err::<Self, DecodeErrorView>(
                DecodeErrorView::UnknownEnumVariant {
                    enum_name: "UpdateSubscriptionItemProrationBehavior"@,
                    raw_value: s,
                },
            ),
    {
        assert(Self::AlwaysInvoice.name() != s);
        assert(Self::CreateProrations.name() != s);
        assert(Self::NoProrations.name() != s);
    }
}

impl Decode for UpdateSubscriptionItemProrationBehavior {
    /// A string decodes to the variant it names, or to an unknown-variant
    /// error; anything but a string is a type mismatch.
    open spec fn decoded(json: JsonView) -> Result<Self, DecodeErrorView> {
        match json {
            JsonView::String(s) => match Self::from_name(s) {
                Some(v) => Ok(v),
                None => Err(
                    DecodeErrorView::UnknownEnumVariant {
                        enum_name: "UpdateSubscriptionItemProrationBehavior"@,
                        raw_value: s,
                    },
                ),
            },
            other => Err(
                DecodeErrorView::TypeMismatch {
                    record: "UpdateSubscriptionItemProrationBehavior"@,
                    field: ""@,
                    expected: JsonKind::String,
                    actual: other.kind(),
                },
            ),
        }
    }

    fn decode(json: &Json) -> (r: Result<Self, DecodeError>) {
        match json {
            Json::String(s) => match Self::from_str(s.as_str()) {
                Ok(v) => Ok(v),
                Err(_) => Err(
                    DecodeError::UnknownEnumVariant {
                        enum_name: "UpdateSubscriptionItemProrationBehavior",
                        raw_value: s.clone(),
                    },
                ),
            },
            other => Err(
                DecodeError::TypeMismatch {
                    record: "UpdateSubscriptionItemProrationBehavior",
                    field: "",
                    expected: JsonKind::String,
                    actual: other.kind(),
                },
            ),
        }
    }
}

impl std::str::FromStr for UpdateSubscriptionItemProrationBehavior {
    type Err = StripeParseError;

    fn from_str(s: &str) -> (r: Result<Self, StripeParseError>)
        ensures
            r.ok() == Self::from_name(s@),
    {
        UpdateSubscriptionItemProrationBehavior::from_str(s)
    }
}

/// Updates the plan or quantity of an item on a current subscription.
#[derive(Clone, Debug)]
pub struct UpdateSubscriptionItem<'a> {
    pub inner: UpdateSubscriptionItemBuilder<'a>,
    pub item: &'a SubscriptionItemId,
}

impl<'a> UpdateSubscriptionItem<'a> {
    /// Construct a new `UpdateSubscriptionItem`.
    pub fn new(item: &'a SubscriptionItemId) -> (r: Self)
        ensures
            r == (UpdateSubscriptionItem { inner: UpdateSubscriptionItemBuilder::initial(), item }),
    {
        UpdateSubscriptionItem { item, inner: UpdateSubscriptionItemBuilder::new() }
    }

    /// Thresholds at which an invoice is sent and the subscription moves to a
    /// new billing period.
    pub fn billing_thresholds(self, billing_thresholds: ItemBillingThresholdsParam) -> (r: Self)
        ensures
            r == (UpdateSubscriptionItem {
                inner: (UpdateSubscriptionItemBuilder {
                    billing_thresholds: Some(billing_thresholds),
                    ..self.inner
                }),
                ..self
            }),
    {
        let mut r = self;
        r.inner.billing_thresholds = Some(billing_thresholds);
        r
    }

    /// The coupons to redeem into discounts for the subscription item.
    pub fn discounts(self, discounts: &'a [DiscountsDataParam<'a>]) -> (r: Self)
        ensures
            r == (UpdateSubscriptionItem {
                inner: (UpdateSubscriptionItemBuilder { discounts: Some(discounts), ..self.inner }),
                ..self
            }),
    {
        let mut r = self;
        r.inner.discounts = Some(discounts);
        r
    }

    /// Specifies which fields in the response should be expanded.
    pub fn expand(self, expand: &'a [&'a str]) -> (r: Self)
        ensures
            r == (UpdateSubscriptionItem {
                inner: (UpdateSubscriptionItemBuilder { expand: Some(expand), ..self.inner }),
                ..self
            }),
    {
        let mut r = self;
        r.inner.expand = Some(expand);
        r
    }

    /// Key/value pairs to attach to the object. A key is unset by posting an
    /// empty value to it.
    pub fn metadata(self, metadata: &'a Metadata) -> (r: Self)
        ensures
            r == (UpdateSubscriptionItem {
                inner: (UpdateSubscriptionItemBuilder { metadata: Some(metadata), ..self.inner }),
                ..self
            }),
    {
        let mut r = self;
        r.inner.metadata = Some(metadata);
        r
    }

    /// Whether the customer is absent while the request is made. Defaults to
    /// `false`.
    pub fn off_session(self, off_session: bool) -> (r: Self)
        ensures
            r == (UpdateSubscriptionItem {
                inner: (UpdateSubscriptionItemBuilder {
                    off_session: Some(off_session),
                    ..self.inner
                }),
                ..self
            }),
    {
        let mut r = self;
        r.inner.off_session = Some(off_session);
        r
    }

    /// How to proceed when a payment is required but cannot be made at once.
    ///
    /// `allow_incomplete` moves the subscription to `past_due`; this is the
    /// default. `default_incomplete` does the same and waits for an explicit
    /// confirmation of the invoice's payment intent. `pending_if_incomplete`
    /// applies the change as a pending update. `error_if_incomplete` makes the
    /// request fail with HTTP 402 instead.
    pub fn payment_behavior(
        self,
        payment_behavior: UpdateSubscriptionItemPaymentBehavior,
    ) -> (r: Self)
        ensures
            r == (UpdateSubscriptionItem {
                inner: (UpdateSubscriptionItemBuilder {
                    payment_behavior: Some(payment_behavior),
                    ..self.inner
                }),
                ..self
            }),
    {
        let mut r = self;
        r.inner.payment_behavior = Some(payment_behavior);
        r
    }

    /// The identifier of the new plan for this subscription item.
    pub fn plan(self, plan: &'a str) -> (r: Self)
        ensures
            r == (UpdateSubscriptionItem {
                inner: (UpdateSubscriptionItemBuilder { plan: Some(plan), ..self.inner }),
                ..self
            }),
    {
        let mut r = self;
        r.inner.plan = Some(plan);
        r
    }

    /// The ID of the price object.
    pub fn price(self, price: &'a str) -> (r: Self)
        ensures
            r == (UpdateSubscriptionItem {
                inner: (UpdateSubscriptionItemBuilder { price: Some(price), ..self.inner }),
                ..self
            }),
    {
        let mut r = self;
        r.inner.price = Some(price);
        r
    }

    /// Data used to generate a new price object inline.
    pub fn price_data(self, price_data: UpdateSubscriptionItemPriceData<'a>) -> (r: Self)
        ensures
            r == (UpdateSubscriptionItem {
                inner: (UpdateSubscriptionItemBuilder {
                    price_data: Some(price_data),
                    ..self.inner
                }),
                ..self
            }),
    {
        let mut r = self;
        r.inner.price_data = Some(price_data);
        r
    }

    /// Determines how to handle prorations when the billing cycle changes (for
    /// example when switching plans or starting a trial), or if an item's
    /// `quantity` changes. The default value is `create_prorations`.
    pub fn proration_behavior(
        self,
        proration_behavior: UpdateSubscriptionItemProrationBehavior,
    ) -> (r: Self)
        ensures
            r == (UpdateSubscriptionItem {
                inner: (UpdateSubscriptionItemBuilder {
                    proration_behavior: Some(proration_behavior),
                    ..self.inner
                }),
                ..self
            }),
    {
        let mut r = self;
        r.inner.proration_behavior = Some(proration_behavior);
        r
    }

    /// If set, the proration is calculated as though the subscription was
    /// updated at the given time.
    pub fn proration_date(self, proration_date: Timestamp) -> (r: Self)
        ensures
            r == (UpdateSubscriptionItem {
                inner: (UpdateSubscriptionItemBuilder {
                    proration_date: Some(proration_date),
                    ..self.inner
                }),
                ..self
            }),
    {
        let mut r = self;
        r.inner.proration_date = Some(proration_date);
        r
    }

    /// The quantity to apply to the subscription item.
    pub fn quantity(self, quantity: u64) -> (r: Self)
        ensures
            r == (UpdateSubscriptionItem {
                inner: (UpdateSubscriptionItemBuilder { quantity: Some(quantity), ..self.inner }),
                ..self
            }),
    {
        let mut r = self;
        r.inner.quantity = Some(quantity);
        r
    }

    /// A list of tax rate ids, which override the default tax rates of the
    /// subscription.
    pub fn tax_rates(self, tax_rates: &'a [&'a str]) -> (r: Self)
        ensures
            r == (UpdateSubscriptionItem {
                inner: (UpdateSubscriptionItemBuilder { tax_rates: Some(tax_rates), ..self.inner }),
                ..self
            }),
    {
        let mut r = self;
        r.inner.tax_rates = Some(tax_rates);
        r
    }

    /// The path of the endpoint.
    pub open spec fn spec_path(&self) -> Seq<char> {
        "/subscription_items/"@ + self.item@
    }

    /// The request: the method, the path, and the parameters as a form.
    pub open spec fn spec_build(&self) -> RequestView {
        RequestView {
            method: StripeMethod::Post,
            path: self.spec_path(),
            query: None,
            body: Some(self.inner.spec_params()),
        }
    }

    /// Builds the path of the endpoint.
    pub fn path(&self) -> (r: String)
        ensures
            r@ == self.spec_path(),
    {
        let mut path = "/subscription_items/".to_owned();
        path.append(self.item.as_str());
        path
    }

    /// Builds the request for the HTTP client.
    pub fn build(&self) -> (r: RequestBuilder)
        ensures
            r@ == self.spec_build(),
    {
        RequestBuilder::new(StripeMethod::Post, self.path()).form(self.inner.params())
    }
}

/// Thresholds at which an invoice is sent and the subscription moves to a
/// new billing period.
#[derive(Copy, Clone, Debug)]
pub struct ItemBillingThresholdsParam {
    /// Number of units that meets the billing threshold to advance the
    /// subscription to a new billing period.
    pub usage_gte: i64,
}

impl ItemBillingThresholdsParam {
    /// The record with the given values and nothing else set.
    pub open spec fn initial(usage_gte: i64) -> Self {
        ItemBillingThresholdsParam { usage_gte }
    }

    /// Makes the record with the given values and nothing else set.
    pub fn new(usage_gte: i64) -> (r: Self)
        ensures
            r == Self::initial(usage_gte),
    {
        ItemBillingThresholdsParam { usage_gte }
    }

    /// The parameters `start` followed by those of the record keyed by
    /// `prefix`: one for every field that is set, in the order of
    /// declaration.
    pub open spec fn appended(&self, start: Pairs, prefix: Seq<char>) -> Pairs {
        start + seq![
            (field_key(prefix, "usage_gte"@), signed_decimal(self.usage_gte as int)),
        ]
    }

    /// Appends the parameters of the record keyed by `prefix`.
    pub fn push_params(&self, out: &mut Vec<Param>, prefix: &str)
        ensures
            pairs(final(out)@) == self.appended(pairs(old(out)@), prefix@),
    {
        push_field_i64(out, prefix, "usage_gte", self.usage_gte);
    }
}

/// One discount to apply: by coupon, by existing discount or by promotion
/// code.
#[derive(Copy, Clone, Debug)]
pub struct DiscountsDataParam<'a> {
    /// ID of the coupon to create a new discount for.
    pub coupon: Option<&'a str>,
    /// ID of an existing discount on the object (or one of its ancestors) to
    /// reuse.
    pub discount: Option<&'a str>,
    /// ID of the promotion code to create a new discount for.
    pub promotion_code: Option<&'a str>,
}

impl<'a> DiscountsDataParam<'a> {
    /// The record with nothing set.
    pub open spec fn initial() -> Self {
        DiscountsDataParam { coupon: None, discount: None, promotion_code: None }
    }

    /// Makes the record with nothing set.
    pub fn new() -> (r: Self)
        ensures
            r == Self::initial(),
    {
        DiscountsDataParam { coupon: None, discount: None, promotion_code: None }
    }

    /// The parameters `start` followed by those of the record keyed by
    /// `prefix`: one for every field that is set, in the order of
    /// declaration.
    pub open spec fn appended(&self, start: Pairs, prefix: Seq<char>) -> Pairs {
        let p = start + opt_text(field_key(prefix, "coupon"@), opt_str_view(self.coupon));
        let p = p + opt_text(field_key(prefix, "discount"@), opt_str_view(self.discount));
        p + opt_text(
            field_key(prefix, "promotion_code"@),
            opt_str_view(self.promotion_code),
        )
    }

    /// Appends the parameters of the record keyed by `prefix`.
    pub fn push_params(&self, out: &mut Vec<Param>, prefix: &str)
        ensures
            pairs(final(out)@) == self.appended(pairs(old(out)@), prefix@),
    {
        push_opt_text(out, prefix, "coupon", self.coupon);
        push_opt_text(out, prefix, "discount", self.discount);
        push_opt_text(out, prefix, "promotion_code", self.promotion_code);
    }

    /// The parameters `start` followed by those of a list of records
    /// keyed by `key`: those of each element under the key of its index.
    pub open spec fn list_appended(start: Pairs, key: Seq<char>, items: Seq<Self>) -> Pairs
        decreases items.len(),
    {
        if items.len() == 0 {
            start
        } else {
            items.last().appended(
                Self::list_appended(start, key, items.drop_last()),
                index_key(key, (items.len() - 1) as nat),
            )
        }
    }

    /// Appends the parameters of a list of records keyed by `key`.
    pub fn push_list_params(out: &mut Vec<Param>, key: &str, items: &[Self])
        ensures
            pairs(final(out)@) == Self::list_appended(pairs(old(out)@), key@, items@),
    {
        let mut i: usize = 0;
        while i < items.len()
            invariant
                i <= items.len(),
                pairs(out@) == Self::list_appended(pairs(old(out)@), key@, items@.take(i as int)),
            decreases items.len() - i,
        {
            items[i].push_params(out, make_index_key(key, i).as_str());
            proof {
                let next = items@.take(i + 1);
                assert(next.drop_last() =~= items@.take(i as int));
                assert(next.last() == items@[i as int]);
            }
            i += 1;
        }
        assert(items@.take(i as int) =~= items@);
    }
}

impl<'a> Default for DiscountsDataParam<'a> {
    fn default() -> (r: Self)
        ensures
            r == Self::initial(),
    {
        Self::new()
    }
}

} // verus!
