//! The errors that decoding and page fetches report.

use vstd::prelude::*;

verus! {

/// The error of parsing a wire name that no variant of the target
/// enumeration has.
#[derive(Clone, Copy, Debug, PartialEq, Eq, Structural)]
pub struct StripeParseError;

/// The shape of a JSON value, or the shape that a field asks for.
#[derive(Clone, Copy, Debug, PartialEq, Eq, Structural)]
pub enum JsonKind {
    Null,
    Bool,
    /// The literal `true`; only ever an expectation.
    True,
    /// A number without fraction or exponent.
    Integer,
    /// Any other number.
    Float,
    String,
    Array,
    Object,
}

/// Why a JSON value could not be decoded into a record.
#[derive(Clone, Debug, PartialEq, Eq)]
pub enum DecodeError {
    /// A required field has no member in the object.
    MissingField { record: &'static str, field: &'static str },
    /// A known field holds a value of the wrong shape. An empty `field`
    /// stands for the value as a whole.
    TypeMismatch {
        record: &'static str,
        field: &'static str,
        expected: JsonKind,
        actual: JsonKind,
    },
    /// A string that is not among the wire names of a closed enumeration.
    UnknownEnumVariant { enum_name: &'static str, raw_value: String },
    /// A list page without a usable `data` or `has_more`.
    MalformedPage,
}

/// The mathematical content of a [`DecodeError`].
pub ghost enum DecodeErrorView {
    MissingField { record: Seq<char>, field: Seq<char> },
    TypeMismatch { record: Seq<char>, field: Seq<char>, expected: JsonKind, actual: JsonKind },
    UnknownEnumVariant { enum_name: Seq<char>, raw_value: Seq<char> },
    MalformedPage,
}

impl View for DecodeError {
    type V = DecodeErrorView;

    open spec fn view(&self) -> DecodeErrorView {
        match self {
            DecodeError::MissingField { record, field } => DecodeErrorView::MissingField {
                record: record@,
                field: field@,
            },
            DecodeError::TypeMismatch {
                record,
                field,
                expected,
                actual,
            } => DecodeErrorView::TypeMismatch {
                record: record@,
                field: field@,
                expected: *expected,
                actual: *actual,
            },
            DecodeError::UnknownEnumVariant {
                enum_name,
                raw_value,
            } => DecodeErrorView::UnknownEnumVariant {
                enum_name: enum_name@,
                raw_value: raw_value@,
            },
            DecodeError::MalformedPage => DecodeErrorView::MalformedPage,
        }
    }
}

/// An error of the HTTP client: a failure of the network, or a response
/// that reports failure. It is handed through as it came.
#[derive(Clone, Debug, PartialEq, Eq)]
pub struct TransportError {
    /// The status of the response, where there was one.
    pub status: Option<u16>,
    pub message: String,
}

/// The mathematical content of a [`TransportError`].
pub ghost struct TransportErrorView {
    pub status: Option<u16>,
    pub message: Seq<char>,
}

impl View for TransportError {
    type V = TransportErrorView;

    open spec fn view(&self) -> TransportErrorView {
        TransportErrorView { status: self.status, message: self.message@ }
    }
}

/// Why a page could not be had.
#[derive(Clone, Debug, PartialEq, Eq)]
pub enum FetchError {
    /// The HTTP client failed.
    Transport(TransportError),
    /// The response did not decode.
    Decode(DecodeError),
}

/// The mathematical content of a [`FetchError`].
pub ghost enum FetchErrorView {
    Transport(TransportErrorView),
    Decode(DecodeErrorView),
}

impl View for FetchError {
    type V = FetchErrorView;

    open spec fn view(&self) -> FetchErrorView {
        match self {
            FetchError::Transport(e) => FetchErrorView::Transport(e@),
            FetchError::Decode(e) => FetchErrorView::Decode(e@),
        }
    }
}

/// The view of a decoding outcome: of the record, or of the error.
pub open spec fn result_view<T: View>(r: Result<T, DecodeError>) -> Result<T::V, DecodeErrorView> {
    match r {
        Ok(v) => Ok(v@),
        Err(e) => Err(e@),
    }
}

} // verus!
