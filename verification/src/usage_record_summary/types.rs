//! The usage of a subscription item, summed up over one billing period.

use crate::decode::{
    lemma_member_of_retained, member, optional_integer, optional_text, read_flag, read_integer,
    read_optional_integer, read_optional_text, read_text, read_value, required_flag,
    required_integer, required_text, required_value, retain, Decode, Members,
};
use crate::error::{DecodeError, DecodeErrorView, JsonKind};
use crate::ids::UsageRecordSummaryId;
use crate::json::{lemma_object_view, Json, JsonView};
use crate::object::Object;
use crate::types::Timestamp;
use vstd::prelude::*;

verus! {

/// A span of time. Either end may be open.
#[derive(Copy, Clone, Debug, PartialEq, Eq, Structural)]
pub struct Period {
    /// The end of the span, which is not part of it.
    pub end: Option<Timestamp>,
    /// The start of the span, which is part of it.
    pub start: Option<Timestamp>,
}

impl View for Period {
    type V = Self;

    open spec fn view(&self) -> Self {
        *self
    }
}

impl Period {
    /// Whether a member name is that of a field of the record.
    pub open spec fn known_key(k: Seq<char>) -> bool {
        k == "end"@ || k == "start"@
    }

    /// What decoding an object with the given members gives; the fields
    /// are read in the order `end`, `start`.
    pub open spec fn decoded_members(members: Members) -> Result<Period, DecodeErrorView> {
        match optional_integer(members, "Period"@, "end"@) {
            Err(e) => Err(e),
            Ok(end) => match optional_integer(members, "Period"@, "start"@) {
                Err(e) => Err(e),
                Ok(start) => Ok(Period { end, start }),
            },
        }
    }

    /// Members that are no fields of the record are ignored: the outcome
    /// is that of decoding the object without them.
    pub proof fn lemma_unknown_keys_ignored(members: Members)
        ensures
            Self::decoded(JsonView::Object(members)) == Self::decoded(
                JsonView::Object(retain(members, |k: Seq<char>| Self::known_key(k))),
            ),
    {
        let keep = |k: Seq<char>| Self::known_key(k);
        lemma_member_of_retained(members, keep, "end"@);
        lemma_member_of_retained(members, keep, "start"@);
    }
}

impl Decode for Period {
    /// An object decodes by its members; anything else is a type
    /// mismatch of the value as a whole.
    open spec fn decoded(json: JsonView) -> Result<Period, DecodeErrorView> {
        match json {
            JsonView::Object(members) => Self::decoded_members(members),
            other => Err(
                DecodeErrorView::TypeMismatch {
                    record: "Period"@,
                    field: ""@,
                    expected: JsonKind::Object,
                    actual: other.kind(),
                },
            ),
        }
    }

    fn decode(json: &Json) -> (r: Result<Self, DecodeError>) {
        match json {
            Json::Object(members) => {
                proof {
                    lemma_object_view(*members);
                }
                let end = read_optional_integer(members, "Period", "end")?;
                let start = read_optional_integer(members, "Period", "start")?;
                Ok(Period { end, start })
            },
            other => Err(
                DecodeError::TypeMismatch {
                    record: "Period",
                    field: "",
                    expected: JsonKind::Object,
                    actual: other.kind(),
                },
            ),
        }
    }
}

/// The usage of one subscription item over one billing period, summed
/// up from the usage records of that period.
#[derive(Clone, Debug, PartialEq, Eq)]
pub struct UsageRecordSummary {
    /// Unique identifier for the object.
    pub id: UsageRecordSummaryId,
    /// The invoice in which this usage period has been billed for.
    pub invoice: Option<String>,
    /// Whether the object exists in live mode rather than in test mode.
    pub livemode: bool,
    pub period: Period,
    /// The ID of the subscription item this summary is describing.
    pub subscription_item: String,
    /// The total usage within this usage period.
    pub total_usage: i64,
}

/// The mathematical content of a [`UsageRecordSummary`].
pub ghost struct UsageRecordSummaryView {
    pub id: Seq<char>,
    pub invoice: Option<Seq<char>>,
    pub livemode: bool,
    pub period: Period,
    pub subscription_item: Seq<char>,
    pub total_usage: i64,
}

impl View for UsageRecordSummary {
    type V = UsageRecordSummaryView;

    open spec fn view(&self) -> UsageRecordSummaryView {
        UsageRecordSummaryView {
            id: self.id@,
            invoice: match self.invoice {
                Some(s) => Some(s@),
                None => None,
            },
            livemode: self.livemode,
            period: self.period,
            subscription_item: self.subscription_item@,
            total_usage: self.total_usage,
        }
    }
}

impl UsageRecordSummary {
    /// Whether a member name is that of a field of the record.
    pub open spec fn known_key(k: Seq<char>) -> bool {
        ||| k == "id"@
        ||| k == "invoice"@
        ||| k == "livemode"@
        ||| k == "period"@
        ||| k == "subscription_item"@
        ||| k == "total_usage"@
    }

    /// Whether a field must have a member.
    pub open spec fn required_key(k: Seq<char>) -> bool {
        Self::known_key(k) && k != "invoice"@
    }

    /// What decoding an object with the given members gives. The fields
    /// are read in the order `id`, `invoice`, `livemode`, `period`,
    /// `subscription_item`, `total_usage`, and the first that is missing
    /// or does not decode decides the error.
    pub open spec fn decoded_members(members: Members) -> Result<
        UsageRecordSummaryView,
        DecodeErrorView,
    > {
        let record = "UsageRecordSummary"@;
        match required_text(members, record, "id"@) {
            Err(e) => Err(e),
            Ok(id) => match optional_text(members, record, "invoice"@) {
                Err(e) => Err(e),
                Ok(invoice) => match required_flag(members, record, "livemode"@) {
                    Err(e) => Err(e),
                    Ok(livemode) => match required_value::<Period>(members, record, "period"@) {
                        Err(e) => Err(e),
                        Ok(period) => match required_text(members, record, "subscription_item"@) {
                            Err(e) => Err(e),
                            Ok(subscription_item) => match required_integer(
                                members,
                                record,
                                "total_usage"@,
                            ) {
                                Err(e) => Err(e),
                                Ok(total_usage) => Ok(
                                    UsageRecordSummaryView {
                                        id,
                                        invoice,
                                        livemode,
                                        period,
                                        subscription_item,
                                        total_usage,
                                    },
                                ),
                            },
                        },
                    },
                },
            },
        }
    }

    /// Members that are no fields of the record are ignored: the outcome
    /// is that of decoding the object without them.
    pub proof fn lemma_unknown_keys_ignored(members: Members)
        ensures
            Self::decoded(JsonView::Object(members)) == Self::decoded(
                JsonView::Object(retain(members, |k: Seq<char>| Self::known_key(k))),
            ),
    {
        let keep = |k: Seq<char>| Self::known_key(k);
        lemma_member_of_retained(members, keep, "id"@);
        lemma_member_of_retained(members, keep, "invoice"@);
        lemma_member_of_retained(members, keep, "livemode"@);
        lemma_member_of_retained(members, keep, "period"@);
        lemma_member_of_retained(members, keep, "subscription_item"@);
        lemma_member_of_retained(members, keep, "total_usage"@);
    }

    /// An object of which every field can be read decodes, whatever else
    /// it holds.
    pub proof fn lemma_complete_object_decodes(members: Members)
        requires
            required_text(members, "UsageRecordSummary"@, "id"@) is Ok,
            optional_text(members, "UsageRecordSummary"@, "invoice"@) is Ok,
            required_flag(members, "UsageRecordSummary"@, "livemode"@) is Ok,
            required_value::<Period>(members, "UsageRecordSummary"@, "period"@) is Ok,
            required_text(members, "UsageRecordSummary"@, "subscription_item"@) is Ok,
            required_integer(members, "UsageRecordSummary"@, "total_usage"@) is Ok,
        ensures
            Self::decoded(JsonView::Object(members)) is Ok,
    {
    }

    /// Whether every field that is declared before `field` can be read.
    pub open spec fn readable_before(members: Members, field: Seq<char>) -> bool {
        let record = "UsageRecordSummary"@;
        let id = required_text(members, record, "id"@) is Ok;
        let invoice = id && optional_text(members, record, "invoice"@) is Ok;
        let livemode = invoice && required_flag(members, record, "livemode"@) is Ok;
        let period = livemode && required_value::<Period>(members, record, "period"@) is Ok;
        let item = period && required_text(members, record, "subscription_item"@) is Ok;
        if field == "id"@ {
            true
        } else if field == "invoice"@ {
            id
        } else if field == "livemode"@ {
            invoice
        } else if field == "period"@ {
            livemode
        } else if field == "subscription_item"@ {
            period
        } else {
            item
        }
    }

    /// An object without a member for a required field does not decode.
    /// The error names the field, unless a field before it already
    /// failed.
    pub proof fn lemma_missing_field(members: Members, field: Seq<char>)
        requires
            Self::required_key(field),
            member(members, field) is None,
        ensures
            Self::decoded(JsonView::Object(members)) is Err,
            Self::readable_before(members, field) ==> Self::decoded(JsonView::Object(members))
                == Err::<UsageRecordSummaryView, DecodeErrorView>(
                DecodeErrorView::MissingField { record: "UsageRecordSummary"@, field },
            ),
    {
        reveal_strlit("id");
        reveal_strlit("invoice");
        reveal_strlit("livemode");
        reveal_strlit("period");
        reveal_strlit("subscription_item");
        reveal_strlit("total_usage");
        assert("id"@.len() == 2);
        assert("invoice"@.len() == 7);
        assert("livemode"@.len() == 8);
        assert("period"@.len() == 6);
        assert("subscription_item"@.len() == 17);
        assert("total_usage"@.len() == 11);
    }

    /// An object without `invoice` decodes as one whose `invoice` is
    /// null: to a record without an invoice, if it decodes at all.
    pub proof fn lemma_missing_invoice(members: Members)
        requires
            member(members, "invoice"@) is None,
        ensures
            match Self::decoded(JsonView::Object(members)) {
                Ok(v) => v.invoice is None,
                Err(_) => true,
            },
    {
    }
}

impl Decode for UsageRecordSummary {
    /// An object decodes by its members; anything else is a type
    /// mismatch of the value as a whole.
    open spec fn decoded(json: JsonView) -> Result<UsageRecordSummaryView, DecodeErrorView> {
        match json {
            JsonView::Object(members) => Self::decoded_members(members),
            other => Err(
                DecodeErrorView::TypeMismatch {
                    record: "UsageRecordSummary"@,
                    field: ""@,
                    expected: JsonKind::Object,
                    actual: other.kind(),
                },
            ),
        }
    }

    fn decode(json: &Json) -> (r: Result<Self, DecodeError>) {
        match json {
            Json::Object(members) => {
                proof {
                    lemma_object_view(*members);
                }
                let id = read_text(members, "UsageRecordSummary", "id")?;
                let invoice = read_optional_text(members, "UsageRecordSummary", "invoice")?;
                let livemode = read_flag(members, "UsageRecordSummary", "livemode")?;
                let period = read_value::<Period>(members, "UsageRecordSummary", "period")?;
                let subscription_item = read_text(
                    members,
                    "UsageRecordSummary",
                    "subscription_item",
                )?;
                let total_usage = read_integer(members, "UsageRecordSummary", "total_usage")?;
                Ok(
                    UsageRecordSummary {
                        id: UsageRecordSummaryId(id),
                        invoice,
                        livemode,
                        period,
                        subscription_item,
                        total_usage,
                    },
                )
            },
            other => Err(
                DecodeError::TypeMismatch {
                    record: "UsageRecordSummary",
                    field: "",
                    expected: JsonKind::Object,
                    actual: other.kind(),
                },
            ),
        }
    }
}

impl Object for UsageRecordSummary {
    type Id = UsageRecordSummaryId;

    open spec fn id_of(v: UsageRecordSummaryView) -> Seq<char> {
        v.id
    }

    fn id(&self) -> (r: &UsageRecordSummaryId) {
        &self.id
    }

    fn into_id(self) -> (r: UsageRecordSummaryId) {
        self.id
    }

    fn cursor(&self) -> (r: &str) {
        self.id.as_str()
    }
}

} // verus!
