//! Identifiers of API objects.

use vstd::prelude::*;

verus! {

/// The identifier of a product.
#[derive(Clone, Debug, PartialEq, Eq)]
pub struct ProductId(pub String);

/// The identifier of a radar value list.
#[derive(Clone, Debug, PartialEq, Eq)]
pub struct RadarValueListId(pub String);

/// The identifier of a subscription item.
#[derive(Clone, Debug, PartialEq, Eq)]
pub struct SubscriptionItemId(pub String);

/// The identifier of a usage record summary.
#[derive(Clone, Debug, PartialEq, Eq)]
pub struct UsageRecordSummaryId(pub String);

/// The identifier of a customer.
#[derive(Clone, Debug, PartialEq, Eq)]
pub struct CustomerId(pub String);

/// The identifier of a top-up.
#[derive(Clone, Debug, PartialEq, Eq)]
pub struct TopupId(pub String);

impl View for ProductId {
    type V = Seq<char>;

    open spec fn view(&self) -> Seq<char> {
        self.0@
    }
}

impl View for RadarValueListId {
    type V = Seq<char>;

    open spec fn view(&self) -> Seq<char> {
        self.0@
    }
}

impl View for SubscriptionItemId {
    type V = Seq<char>;

    open spec fn view(&self) -> Seq<char> {
        self.0@
    }
}

impl View for UsageRecordSummaryId {
    type V = Seq<char>;

    open spec fn view(&self) -> Seq<char> {
        self.0@
    }
}

impl View for CustomerId {
    type V = Seq<char>;

    open spec fn view(&self) -> Seq<char> {
        self.0@
    }
}

impl View for TopupId {
    type V = Seq<char>;

    open spec fn view(&self) -> Seq<char> {
        self.0@
    }
}

impl ProductId {
    pub fn new(id: &str) -> (r: Self)
        ensures
            r@ == id@,
    {
        ProductId(id.to_owned())
    }

    pub fn as_str(&self) -> (r: &str)
        ensures
            r@ == self@,
    {
        self.0.as_str()
    }
}

impl RadarValueListId {
    pub fn new(id: &str) -> (r: Self)
        ensures
            r@ == id@,
    {
        RadarValueListId(id.to_owned())
    }

    pub fn as_str(&self) -> (r: &str)
        ensures
            r@ == self@,
    {
        self.0.as_str()
    }
}

impl SubscriptionItemId {
    pub fn new(id: &str) -> (r: Self)
        ensures
            r@ == id@,
    {
        SubscriptionItemId(id.to_owned())
    }

    pub fn as_str(&self) -> (r: &str)
        ensures
            r@ == self@,
    {
        self.0.as_str()
    }
}

impl UsageRecordSummaryId {
    pub fn new(id: &str) -> (r: Self)
        ensures
            r@ == id@,
    {
        UsageRecordSummaryId(id.to_owned())
    }

    pub fn as_str(&self) -> (r: &str)
        ensures
            r@ == self@,
    {
        self.0.as_str()
    }
}

impl CustomerId {
    pub fn new(id: &str) -> (r: Self)
        ensures
            r@ == id@,
    {
        CustomerId(id.to_owned())
    }

    pub fn as_str(&self) -> (r: &str)
        ensures
            r@ == self@,
    {
        self.0.as_str()
    }
}

impl TopupId {
    pub fn new(id: &str) -> (r: Self)
        ensures
            r@ == id@,
    {
        TopupId(id.to_owned())
    }

    pub fn as_str(&self) -> (r: &str)
        ensures
            r@ == self@,
    {
        self.0.as_str()
    }
}

} // verus!
