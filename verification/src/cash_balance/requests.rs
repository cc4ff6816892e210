//! Requests on a customer's cash balance.

use crate::decode::Decode;
use crate::error::{DecodeError, DecodeErrorView, JsonKind, StripeParseError};
use crate::ids::CustomerId;
use crate::json::{Json, JsonView};
use crate::params::{
    field_key, make_field_key, no_params, opt_list_view, opt_str_view, opt_text, opt_text_list,
    pairs, push_opt_text, push_opt_text_list, top_level, Pairs, Param,
};
use crate::request::{RequestBuilder, RequestView, StripeMethod};
use crate::text::str_eq;
use vstd::prelude::*;
use vstd::string::StringExecFns;

verus! {

/// The parameters of [`RetrieveCashBalance`].
#[derive(Copy, Clone, Debug)]
pub struct RetrieveCashBalanceBuilder<'a> {
    /// Specifies which fields in the response should be expanded.
    pub expand: Option<&'a [&'a str]>,
}

impl<'a> RetrieveCashBalanceBuilder<'a> {
    /// The record with nothing set.
    pub open spec fn initial() -> Self {
        RetrieveCashBalanceBuilder { expand: None }
    }

    /// Makes the record with nothing set.
    pub fn new() -> (r: Self)
        ensures
            r == Self::initial(),
    {
        RetrieveCashBalanceBuilder { expand: None }
    }

    /// The parameters `start` followed by those of the record keyed by
    /// `prefix`: one for every field that is set, in the order of
    /// declaration.
    pub open spec fn appended(&self, start: Pairs, prefix: Seq<char>) -> Pairs {
        start + opt_text_list(field_key(prefix, "expand"@), opt_list_view(self.expand))
    }

    /// Appends the parameters of the record keyed by `prefix`.
    pub fn push_params(&self, out: &mut Vec<Param>, prefix: &str)
        ensures
            pairs(final(out)@) == self.appended(pairs(old(out)@), prefix@),
    {
        push_opt_text_list(out, prefix, "expand", self.expand);
    }

    /// The parameters of the request.
    pub open spec fn spec_params(&self) -> Pairs {
        self.appended(Seq::empty(), Seq::empty())
    }

    /// The parameters of the request.
    pub fn params(&self) -> (r: Vec<Param>)
        ensures
            pairs(r@) == self.spec_params(),
    {
        let mut out = no_params();
        self.push_params(&mut out, top_level());
        out
    }
}

/// Retrieves a customer's cash balance.
#[derive(Clone, Debug)]
pub struct RetrieveCashBalance<'a> {
    pub inner: RetrieveCashBalanceBuilder<'a>,
    pub customer: &'a CustomerId,
}

impl<'a> RetrieveCashBalance<'a> {
    /// Construct a new `RetrieveCashBalance`.
    pub fn new(customer: &'a CustomerId) -> (r: Self)
        ensures
            r == (RetrieveCashBalance { inner: RetrieveCashBalanceBuilder::initial(), customer }),
    {
        RetrieveCashBalance { customer, inner: RetrieveCashBalanceBuilder::new() }
    }

    /// Specifies which fields in the response should be expanded.
    pub fn expand(self, expand: &'a [&'a str]) -> (r: Self)
        ensures
            r == (RetrieveCashBalance {
                inner: (RetrieveCashBalanceBuilder { expand: Some(expand), ..self.inner }),
                ..self
            }),
    {
        let mut r = self;
        r.inner.expand = Some(expand);
        r
    }

    /// The path of the endpoint.
    pub open spec fn spec_path(&self) -> Seq<char> {
        "/customers/"@ + self.customer@ + "/cash_balance"@
    }

    /// The request: the method, the path, and the parameters as a query.
    pub open spec fn spec_build(&self) -> RequestView {
        RequestView {
            method: StripeMethod::Get,
            path: self.spec_path(),
            query: Some(self.inner.spec_params()),
            body: None,
        }
    }

    /// Builds the path of the endpoint.
    pub fn path(&self) -> (r: String)
        ensures
            r@ == self.spec_path(),
    {
        let mut path = "/customers/".to_owned();
        path.append(self.customer.as_str());
        path.append("/cash_balance");
        path
    }

    /// Builds the request for the HTTP client.
    pub fn build(&self) -> (r: RequestBuilder)
        ensures
            r@ == self.spec_build(),
    {
        RequestBuilder::new(StripeMethod::Get, self.path()).query(self.inner.params())
    }
}

/// The parameters of [`UpdateCashBalance`].
#[derive(Copy, Clone, Debug)]
pub struct UpdateCashBalanceBuilder<'a> {
    /// Specifies which fields in the response should be expanded.
    pub expand: Option<&'a [&'a str]>,
    /// A hash of settings for this cash balance.
    pub settings: Option<UpdateCashBalanceSettings>,
}

impl<'a> UpdateCashBalanceBuilder<'a> {
    /// The record with nothing set.
    pub open spec fn initial() -> Self {
        UpdateCashBalanceBuilder { expand: None, settings: None }
    }

    /// Makes the record with nothing set.
    pub fn new() -> (r: Self)
        ensures
            r == Self::initial(),
    {
        UpdateCashBalanceBuilder { expand: None, settings: None }
    }

    /// The parameters `start` followed by those of the record keyed by
    /// `prefix`: one for every field that is set, in the order of
    /// declaration.
    pub open spec fn appended(&self, start: Pairs, prefix: Seq<char>) -> Pairs {
        let p = start + opt_text_list(field_key(prefix, "expand"@), opt_list_view(self.expand));
        match &self.settings {
            Some(v) => v.appended(p, field_key(prefix, "settings"@)),
            None => p,
        }
    }

    /// Appends the parameters of the record keyed by `prefix`.
    pub fn push_params(&self, out: &mut Vec<Param>, prefix: &str)
        ensures
            pairs(final(out)@) == self.appended(pairs(old(out)@), prefix@),
    {
        push_opt_text_list(out, prefix, "expand", self.expand);
        if let Some(v) = &self.settings {
            v.push_params(out, make_field_key(prefix, "settings").as_str());
        }
    }

    /// The parameters of the request.
    pub open spec fn spec_params(&self) -> Pairs {
        self.appended(Seq::empty(), Seq::empty())
    }

    /// The parameters of the request.
    pub fn params(&self) -> (r: Vec<Param>)
        ensures
            pairs(r@) == self.spec_params(),
    {
        let mut out = no_params();
        self.push_params(&mut out, top_level());
        out
    }
}

/// A hash of settings for this cash balance.
#[derive(Copy, Clone, Debug)]
pub struct UpdateCashBalanceSettings {
    /// Controls how funds transferred by the customer are applied to payment
    /// intents and invoices.
    pub reconciliation_mode: Option<UpdateCashBalanceSettingsReconciliationMode>,
}

impl UpdateCashBalanceSettings {
    /// The record with nothing set.
    pub open spec fn initial() -> Self {
        UpdateCashBalanceSettings { reconciliation_mode: None }
    }

    /// Makes the record with nothing set.
    pub fn new() -> (r: Self)
        ensures
            r == Self::initial(),
    {
        UpdateCashBalanceSettings { reconciliation_mode: None }
    }

    /// The parameters `start` followed by those of the record keyed by
    /// `prefix`: one for every field that is set, in the order of
    /// declaration.
    pub open spec fn appended(&self, start: Pairs, prefix: Seq<char>) -> Pairs {
        start + opt_text(
            field_key(prefix, "reconciliation_mode"@),
            UpdateCashBalanceSettingsReconciliationMode::opt_name(self.reconciliation_mode),
        )
    }

    /// Appends the parameters of the record keyed by `prefix`.
    pub fn push_params(&self, out: &mut Vec<Param>, prefix: &str)
        ensures
            pairs(final(out)@) == self.appended(pairs(old(out)@), prefix@),
    {
        push_opt_text(
            out,
            prefix,
            "reconciliation_mode",
            UpdateCashBalanceSettingsReconciliationMode::opt_str(self.reconciliation_mode),
        );
    }
}

impl Default for UpdateCashBalanceSettings {
    fn default() -> (r: Self)
        ensures
            r == Self::initial(),
    {
        Self::new()
    }
}

/// Controls how funds transferred by the customer are applied to payment
/// intents and invoices. Valid options are `automatic`, `manual`, or
/// `merchant_default`.
#[derive(Copy, Clone, Debug, PartialEq, Eq, Structural)]
pub enum UpdateCashBalanceSettingsReconciliationMode {
    Automatic,
    Manual,
    MerchantDefault,
}

impl View for UpdateCashBalanceSettingsReconciliationMode {
    type V = Self;

    open spec fn view(&self) -> Self {
        *self
    }
}

impl UpdateCashBalanceSettingsReconciliationMode {
    /// The wire name of a variant.
    pub open spec fn name(self) -> Seq<char> {
        match self {
            Self::Automatic => "automatic"@,
            Self::Manual => "manual"@,
            Self::MerchantDefault => "merchant_default"@,
        }
    }

    /// The variant that a wire name stands for, if any.
    pub open spec fn from_name(s: Seq<char>) -> Option<Self> {
        if s == "automatic"@ {
            Some(Self::Automatic)
        } else if s == "manual"@ {
            Some(Self::Manual)
        } else if s == "merchant_default"@ {
            Some(Self::MerchantDefault)
        } else {
            None
        }
    }

    /// The wire name of an optional variant.
    pub open spec fn opt_name(value: Option<Self>) -> Option<Seq<char>> {
        match value {
            Some(v) => Some(v.name()),
            None => None,
        }
    }

    /// The wire name of the variant.
    pub fn as_str(self) -> (r: &'static str)
        ensures
            r@ == self.name(),
    {
        match self {
            Self::Automatic => "automatic",
            Self::Manual => "manual",
            Self::MerchantDefault => "merchant_default",
        }
    }

    /// The wire name of an optional variant.
    pub fn opt_str(value: Option<Self>) -> (r: Option<&'static str>)
        ensures
            opt_str_view(r) == Self::opt_name(value),
    {
        match value {
            Some(v) => Some(v.as_str()),
            None => None,
        }
    }

    /// Parses a wire name; any other text is an error.
    pub fn from_str(s: &str) -> (r: Result<Self, StripeParseError>)
        ensures
            r.ok() == Self::from_name(s@),
    {
        if str_eq(s, "automatic") {
            Ok(Self::Automatic)
        } else if str_eq(s, "manual") {
            Ok(Self::Manual)
        } else if str_eq(s, "merchant_default") {
            Ok(Self::MerchantDefault)
        } else {
            Err(StripeParseError)
        }
    }

    /// Every variant is found again from its wire name, and from no other
    /// text.
    pub proof fn lemma_name_round_trip(v: Self, s: Seq<char>)
        ensures
            Self::from_name(v.name()) == Some(v),
            Self::from_name(s) == Some(v) <==> s == v.name(),
    {
        reveal_strlit("automatic");
        reveal_strlit("manual");
        reveal_strlit("merchant_default");
        assert("automatic"@.len() == 9);
        assert("manual"@.len() == 6);
        assert("merchant_default"@.len() == 16);
    }

    /// A text that is no variant's wire name decodes to an unknown-variant
    /// error that carries the text.
    pub proof fn lemma_unknown_name_rejected(s: Seq<char>)
        requires
            forall|v: Self| v.name() != s,
        ensures
            Self::decoded(JsonView::String(s)) == Err::<Self, DecodeErrorView>(
                DecodeErrorView::UnknownEnumVariant {
                    enum_name: "UpdateCashBalanceSettingsReconciliationMode"@,
                    raw_value: s,
                },
            ),
    {
        assert(Self::Automatic.name() != s);
        assert(Self::Manual.name() != s);
        assert(Self::MerchantDefault.name() != s);
    }
}

impl Decode for UpdateCashBalanceSettingsReconciliationMode {
    /// A string decodes to the variant it names, or to an unknown-variant
    /// error; anything but a string is a type mismatch.
    open spec fn decoded(json: JsonView) -> Result<Self, DecodeErrorView> {
        match json {
            JsonView::String(s) => match Self::from_name(s) {
                Some(v) => Ok(v),
                None => Err(
                    DecodeErrorView::UnknownEnumVariant {
                        enum_name: "UpdateCashBalanceSettingsReconciliationMode"@,
                        raw_value: s,
                    },
                ),
            },
            other => Err(
                DecodeErrorView::TypeMismatch {
                    record: "UpdateCashBalanceSettingsReconciliationMode"@,
                    field: ""@,
                    expected: JsonKind::String,
                    actual: other.kind(),
                },
            ),
        }
    }

    fn decode(json: &Json) -> (r: Result<Self, DecodeError>) {
        match json {
            Json::String(s) => match Self::from_str(s.as_str()) {
                Ok(v) => Ok(v),
                Err(_) => Err(
                    DecodeError::UnknownEnumVariant {
                        enum_name: "UpdateCashBalanceSettingsReconciliationMode",
                        raw_value: s.clone(),
                    },
                ),
            },
            other => Err(
                DecodeError::TypeMismatch {
                    record: "UpdateCashBalanceSettingsReconciliationMode",
                    field: "",
                    expected: JsonKind::String,
                    actual: other.kind(),
                },
            ),
        }
    }
}

impl std::str::FromStr for UpdateCashBalanceSettingsReconciliationMode {
    type Err = StripeParseError;

    fn from_str(s: &str) -> (r: Result<Self, StripeParseError>)
        ensures
            r.ok() == Self::from_name(s@),
    {
        UpdateCashBalanceSettingsReconciliationMode::from_str(s)
    }
}

/// Changes the settings on a customer's cash balance.
#[derive(Clone, Debug)]
pub struct UpdateCashBalance<'a> {
    pub inner: UpdateCashBalanceBuilder<'a>,
    pub customer: &'a CustomerId,
}

impl<'a> UpdateCashBalance<'a> {
    /// Construct a new `UpdateCashBalance`.
    pub fn new(customer: &'a CustomerId) -> (r: Self)
        ensures
            r == (UpdateCashBalance { inner: UpdateCashBalanceBuilder::initial(), customer }),
    {
        UpdateCashBalance { customer, inner: UpdateCashBalanceBuilder::new() }
    }

    /// Specifies which fields in the response should be expanded.
    pub fn expand(self, expand: &'a [&'a str]) -> (r: Self)
        ensures
            r == (UpdateCashBalance {
                inner: (UpdateCashBalanceBuilder { expand: Some(expand), ..self.inner }),
                ..self
            }),
    {
        let mut r = self;
        r.inner.expand = Some(expand);
        r
    }

    /// A hash of settings for this cash balance.
    pub fn settings(self, settings: UpdateCashBalanceSettings) -> (r: Self)
        ensures
            r == (UpdateCashBalance {
                inner: (UpdateCashBalanceBuilder { settings: Some(settings), ..self.inner }),
                ..self
            }),
    {
        let mut r = self;
        r.inner.settings = Some(settings);
        r
    }

    /// The path of the endpoint.
    pub open spec fn spec_path(&self) -> Seq<char> {
        "/customers/"@ + self.customer@ + "/cash_balance"@
    }

    /// The request: the method, the path, and the parameters as a form.
    pub open spec fn spec_build(&self) -> RequestView {
        RequestView {
            method: StripeMethod::Post,
            path: self.spec_path(),
            query: None,
            body: Some(self.inner.spec_params()),
        }
    }

    /// Builds the path of the endpoint.
    pub fn path(&self) -> (r: String)
        ensures
            r@ == self.spec_path(),
    {
        let mut path = "/customers/".to_owned();
        path.append(self.customer.as_str());
        path.append("/cash_balance");
        path
    }

    /// Builds the request for the HTTP client.
    pub fn build(&self) -> (r: RequestBuilder)
        ensures
            r@ == self.spec_build(),
    {
        RequestBuilder::new(StripeMethod::Post, self.path()).form(self.inner.params())
    }
}

} // verus!
