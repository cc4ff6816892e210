//! Requests on usage record summaries.

use crate::ids::SubscriptionItemId;
use crate::paginator::{lemma_cursor_keys_differ, Direction, ListPaginator, PaginatorView};
use crate::params::{
    field_key, has_param, lemma_has_param_concat, lemma_has_param_empty,
    lemma_has_param_opt_int, lemma_has_param_opt_text, lemma_text_list_keys, list_view,
    no_params, opt_int, opt_list_view, opt_str_view, opt_text, opt_text_list, pairs,
    push_opt_i64, push_opt_text, push_opt_text_list, text_list, top_level, Pairs, Param,
};
use crate::request::{RequestBuilder, RequestView, StripeMethod};
use crate::usage_record_summary::types::{UsageRecordSummary, UsageRecordSummaryView};
use vstd::prelude::*;
use vstd::string::StringExecFns;

verus! {

/// The parameters of [`ListSubscriptionItemUsageRecordSummary`].
#[derive(Copy, Clone, Debug)]
pub struct ListSubscriptionItemUsageRecordSummaryBuilder<'a> {
    /// A cursor for use in pagination: the identifier of an object, to
    /// fetch the page that ends just before it.
    pub ending_before: Option<&'a str>,
    /// Specifies which fields in the response should be expanded.
    pub expand: Option<&'a [&'a str]>,
    /// A limit on the number of objects to be returned, between 1 and 100;
    /// the default is 10.
    pub limit: Option<i64>,
    /// A cursor for use in pagination: the identifier of an object, to
    /// fetch the page that starts just after it.
    pub starting_after: Option<&'a str>,
}

impl<'a> ListSubscriptionItemUsageRecordSummaryBuilder<'a> {
    /// The record with nothing set.
    pub open spec fn initial() -> Self {
        ListSubscriptionItemUsageRecordSummaryBuilder {
            ending_before: None,
            expand: None,
            limit: None,
            starting_after: None,
        }
    }

    /// Makes the record with nothing set.
    pub fn new() -> (r: Self)
        ensures
            r == Self::initial(),
    {
        ListSubscriptionItemUsageRecordSummaryBuilder {
            ending_before: None,
            expand: None,
            limit: None,
            starting_after: None,
        }
    }

    /// The parameters `start` followed by those of the record keyed by
    /// `prefix`: one for every field that is set, in the order of
    /// declaration.
    pub open spec fn appended(&self, start: Pairs, prefix: Seq<char>) -> Pairs {
        let p = start + opt_text(
            field_key(prefix, "ending_before"@),
            opt_str_view(self.ending_before),
        );
        let p = p + opt_text_list(field_key(prefix, "expand"@), opt_list_view(self.expand));
        let p = p + opt_int(field_key(prefix, "limit"@), self.limit);
        p + opt_text(
            field_key(prefix, "starting_after"@),
            opt_str_view(self.starting_after),
        )
    }

    /// Appends the parameters of the record keyed by `prefix`.
    pub fn push_params(&self, out: &mut Vec<Param>, prefix: &str)
        ensures
            pairs(final(out)@) == self.appended(pairs(old(out)@), prefix@),
    {
        push_opt_text(out, prefix, "ending_before", self.ending_before);
        push_opt_text_list(out, prefix, "expand", self.expand);
        push_opt_i64(out, prefix, "limit", self.limit);
        push_opt_text(out, prefix, "starting_after", self.starting_after);
    }

    /// The parameters hold a cursor exactly where that cursor is set.
    pub proof fn lemma_cursor_params(&self)
        ensures
            has_param(self.spec_params(), "starting_after"@) <==> self.starting_after is Some,
            has_param(self.spec_params(), "ending_before"@) <==> self.ending_before is Some,
    {
        lemma_cursor_keys_differ();
        self.lemma_cursor_param("starting_after"@);
        self.lemma_cursor_param("ending_before"@);
    }

    /// A cursor is the key of its own field only: the other fields have
    /// keys of other lengths, or keys below a name that no cursor starts
    /// with.
    proof fn lemma_cursor_param(&self, k: Seq<char>)
        requires
            k == "starting_after"@ || k == "ending_before"@,
        ensures
            has_param(self.spec_params(), k) <==> if k == "starting_after"@ {
                self.starting_after is Some
            } else {
                self.ending_before is Some
            },
    {
        reveal_strlit("ending_before");
        reveal_strlit("expand");
        reveal_strlit("limit");
        reveal_strlit("starting_after");
        assert("ending_before"@.len() == 13);
        assert("expand"@.len() == 6);
        assert("limit"@.len() == 5);
        assert("starting_after"@.len() == 14);
        let prefix = Seq::<char>::empty();
        let start = Pairs::empty();
        let upto_ending_before = start + opt_text(
            field_key(prefix, "ending_before"@),
            opt_str_view(self.ending_before),
        );
        let upto_expand = upto_ending_before + opt_text_list(
            field_key(prefix, "expand"@),
            opt_list_view(self.expand),
        );
        let upto_limit = upto_expand + opt_int(field_key(prefix, "limit"@), self.limit);
        let upto_starting_after = upto_limit + opt_text(
            field_key(prefix, "starting_after"@),
            opt_str_view(self.starting_after),
        );
        lemma_has_param_empty(k);
        lemma_has_param_opt_text(
            field_key(prefix, "ending_before"@),
            opt_str_view(self.ending_before),
            k,
        );
        lemma_has_param_concat(
            start,
            opt_text(field_key(prefix, "ending_before"@), opt_str_view(self.ending_before)),
            k,
        );
        lemma_has_param_concat(
            upto_ending_before,
            opt_text_list(field_key(prefix, "expand"@), opt_list_view(self.expand)),
            k,
        );
        if let Some(items) = self.expand {
            if has_param(text_list(field_key(prefix, "expand"@), list_view(items@)), k) {
                lemma_text_list_keys(field_key(prefix, "expand"@), list_view(items@), k);
                assert(k.subrange(0, 6)[0] == k[0] && k.subrange(0, 6)[1] == k[1]);
            }
        }
        lemma_has_param_opt_int(field_key(prefix, "limit"@), self.limit, k);
        lemma_has_param_concat(upto_expand, opt_int(field_key(prefix, "limit"@), self.limit), k);
        lemma_has_param_opt_text(
            field_key(prefix, "starting_after"@),
            opt_str_view(self.starting_after),
            k,
        );
        lemma_has_param_concat(
            upto_limit,
            opt_text(field_key(prefix, "starting_after"@), opt_str_view(self.starting_after)),
            k,
        );
    }

    /// The parameters of the request.
    pub open spec fn spec_params(&self) -> Pairs {
        self.appended(Seq::empty(), Seq::empty())
    }

    /// The parameters of the request.
    pub fn params(&self) -> (r: Vec<Param>)
        ensures
            pairs(r@) == self.spec_params(),
    {
        let mut out = no_params();
        self.push_params(&mut out, top_level());
        out
    }
}

/// For the specified subscription item, returns a list of summary objects,
/// newest first. The first one covers the usage period that has not ended
/// yet, so it may still change.
#[derive(Clone, Debug)]
pub struct ListSubscriptionItemUsageRecordSummary<'a> {
    pub inner: ListSubscriptionItemUsageRecordSummaryBuilder<'a>,
    pub subscription_item: &'a SubscriptionItemId,
}

impl<'a> ListSubscriptionItemUsageRecordSummary<'a> {
    /// Construct a new `ListSubscriptionItemUsageRecordSummary`.
    pub fn new(subscription_item: &'a SubscriptionItemId) -> (r: Self)
        ensures
            r == (ListSubscriptionItemUsageRecordSummary {
                inner: ListSubscriptionItemUsageRecordSummaryBuilder::initial(),
                subscription_item,
            }),
    {
        ListSubscriptionItemUsageRecordSummary {
            subscription_item,
            inner: ListSubscriptionItemUsageRecordSummaryBuilder::new(),
        }
    }

    /// A cursor for use in pagination: the identifier of an object, to
    /// fetch the page that ends just before it.
    pub fn ending_before(self, ending_before: &'a str) -> (r: Self)
        ensures
            r == (ListSubscriptionItemUsageRecordSummary {
                inner: (ListSubscriptionItemUsageRecordSummaryBuilder {
                    ending_before: Some(ending_before),
                    ..self.inner
                }),
                ..self
            }),
    {
        let mut r = self;
        r.inner.ending_before = Some(ending_before);
        r
    }

    /// Specifies which fields in the response should be expanded.
    pub fn expand(self, expand: &'a [&'a str]) -> (r: Self)
        ensures
            r == (ListSubscriptionItemUsageRecordSummary {
                inner: (ListSubscriptionItemUsageRecordSummaryBuilder {
                    expand: Some(expand),
                    ..self.inner
                }),
                ..self
            }),
    {
        let mut r = self;
        r.inner.expand = Some(expand);
        r
    }

    /// A limit on the number of objects to be returned, between 1 and 100;
    /// the default is 10.
    pub fn limit(self, limit: i64) -> (r: Self)
        ensures
            r == (ListSubscriptionItemUsageRecordSummary {
                inner: (ListSubscriptionItemUsageRecordSummaryBuilder {
                    limit: Some(limit),
                    ..self.inner
                }),
                ..self
            }),
    {
        let mut r = self;
        r.inner.limit = Some(limit);
        r
    }

    /// A cursor for use in pagination: the identifier of an object, to
    /// fetch the page that starts just after it.
    pub fn starting_after(self, starting_after: &'a str) -> (r: Self)
        ensures
            r == (ListSubscriptionItemUsageRecordSummary {
                inner: (ListSubscriptionItemUsageRecordSummaryBuilder {
                    starting_after: Some(starting_after),
                    ..self.inner
                }),
                ..self
            }),
    {
        let mut r = self;
        r.inner.starting_after = Some(starting_after);
        r
    }

    /// The path of the endpoint.
    pub open spec fn spec_path(&self) -> Seq<char> {
        "/subscription_items/"@ + self.subscription_item@ + "/usage_record_summaries"@
    }

    /// The request: the method, the path, and the parameters as a query.
    pub open spec fn spec_build(&self) -> RequestView {
        RequestView {
            method: StripeMethod::Get,
            path: self.spec_path(),
            query: Some(self.inner.spec_params()),
            body: None,
        }
    }

    /// Builds the path of the endpoint.
    pub fn path(&self) -> (r: String)
        ensures
            r@ == self.spec_path(),
    {
        let mut path = "/subscription_items/".to_owned();
        path.append(self.subscription_item.as_str());
        path.append("/usage_record_summaries");
        path
    }

    /// Builds the request for the HTTP client.
    pub fn build(&self) -> (r: RequestBuilder)
        ensures
            r@ == self.spec_build(),
    {
        RequestBuilder::new(StripeMethod::Get, self.path()).query(self.inner.params())
    }

    /// The traversal of the list before its first page.
    pub open spec fn spec_paginate<V>(&self) -> PaginatorView<V> {
        PaginatorView {
            url: self.spec_path(),
            params: self.inner.spec_params(),
            direction: if self.inner.ending_before is Some {
                Direction::Backward
            } else {
                Direction::Forward
            },
            buffer: Seq::empty(),
            has_more: true,
        }
    }

    /// Starts a traversal of the whole list, page by page: backward if
    /// `ending_before` is set, else forward. There is no traversal where
    /// both cursors are set.
    pub fn paginate(&self) -> (r: Option<ListPaginator<UsageRecordSummary>>)
        ensures
            r is None <==> self.inner.starting_after is Some && self.inner.ending_before is Some,
            r matches Some(p) ==> p@ == self.spec_paginate::<UsageRecordSummaryView>()
                && p@.one_way(),
    {
        proof {
            self.inner.lemma_cursor_params();
        }
        ListPaginator::new_list(self.path(), self.inner.params())
    }
}

} // verus!
