//! Decoding records from JSON values.
//!
//! A record is read field by field, in the order of declaration. Each field
//! is looked up by name among the members of the object: members of other
//! names are never looked at, so the server may add fields at will. The
//! first field that cannot be read decides the error.

use crate::error::{result_view, DecodeError, DecodeErrorView, JsonKind};
use crate::json::{accepted, members_view, parse, Json, JsonNumber, JsonView};
use crate::text::str_eq;
use vstd::prelude::*;

verus! {

/// A type whose values are decoded from JSON.
pub trait Decode: Sized + View {
    /// What decoding a JSON value gives: the content of the value read,
    /// or of the error.
    spec fn decoded(json: JsonView) -> Result<Self::V, DecodeErrorView>;

    /// Decodes a JSON value.
    fn decode(json: &Json) -> (r: Result<Self, DecodeError>)
        ensures
            result_view(r) == Self::decoded(json@),
    ;
}

/// The members of an object, by name and value.
pub type Members = Seq<(Seq<char>, JsonView)>;

/// The value of the member named `key`: that of the last such member,
/// `None` where there is none.
pub open spec fn member(members: Members, key: Seq<char>) -> Option<JsonView>
    decreases members.len(),
{
    if members.len() == 0 {
        None
    } else if members.last().0 == key {
        Some(members.last().1)
    } else {
        member(members.drop_last(), key)
    }
}

/// The members whose names `keep` accepts, in order.
pub open spec fn retain(members: Members, keep: spec_fn(Seq<char>) -> bool) -> Members {
    members.filter(|m: (Seq<char>, JsonView)| keep(m.0))
}

/// Looking up a name that is kept finds the same value whether or not the
/// members of other names are there.
pub proof fn lemma_member_of_retained(
    members: Members,
    keep: spec_fn(Seq<char>) -> bool,
    key: Seq<char>,
)
    requires
        keep(key),
    ensures
        member(retain(members, keep), key) == member(members, key),
    decreases members.len(),
{
    reveal(Seq::filter);
    let pred = |m: (Seq<char>, JsonView)| keep(m.0);
    if members.len() > 0 {
        lemma_member_of_retained(members.drop_last(), keep, key);
        let kept = members.drop_last().filter(pred);
        if keep(members.last().0) {
            assert(members.filter(pred) == kept.push(members.last()));
            assert(kept.push(members.last()).drop_last() =~= kept);
        } else {
            assert(members.filter(pred) == kept);
        }
    }
}

/// A name is found exactly where some member has it.
pub proof fn lemma_member_found(members: Members, key: Seq<char>)
    ensures
        member(members, key) is Some <==> exists|i: int|
            0 <= i < members.len() && (#[trigger] members[i]).0 == key,
    decreases members.len(),
{
    if members.len() > 0 {
        let before = members.drop_last();
        lemma_member_found(before, key);
        if members.last().0 == key {
            assert(members[members.len() - 1].0 == key);
        } else if member(before, key) is Some {
            let i = choose|i: int| 0 <= i < before.len() && (#[trigger] before[i]).0 == key;
            assert(members[i].0 == key);
        } else if exists|i: int| 0 <= i < members.len() && (#[trigger] members[i]).0 == key {
            let i = choose|i: int| 0 <= i < members.len() && (#[trigger] members[i]).0 == key;
            assert(before[i].0 == key);
        }
    }
}

/// Looks up a member of an object by name.
pub fn find_member<'a>(members: &'a Vec<(String, Json)>, key: &str) -> (r: Option<&'a Json>)
    ensures
        match r {
            Some(v) => member(members_view(members@), key@) == Some(v@),
            None => member(members_view(members@), key@) is None,
        },
{
    let ghost all = members_view(members@);
    let mut i: usize = members.len();
    assert(all.take(i as int) =~= all);
    while i > 0
        invariant
            i <= members.len(),
            all == members_view(members@),
            member(all, key@) == member(all.take(i as int), key@),
        decreases i,
    {
        i -= 1;
        proof {
            let upto = all.take(i + 1);
            assert(upto.last() == all[i as int]);
            assert(upto.drop_last() =~= all.take(i as int));
        }
        if str_eq(members[i].0.as_str(), key) {
            return Some(&members[i].1);
        }
    }
    None
}

/// What reading a required text field gives.
pub open spec fn required_text(members: Members, record: Seq<char>, field: Seq<char>) -> Result<
    Seq<char>,
    DecodeErrorView,
> {
    match member(members, field) {
        None => Err(DecodeErrorView::MissingField { record, field }),
        Some(JsonView::String(s)) => Ok(s),
        Some(other) => Err(
            DecodeErrorView::TypeMismatch {
                record,
                field,
                expected: JsonKind::String,
                actual: other.kind(),
            },
        ),
    }
}

/// What reading an optional text field gives: nothing where the member
/// is absent or null.
pub open spec fn optional_text(members: Members, record: Seq<char>, field: Seq<char>) -> Result<
    Option<Seq<char>>,
    DecodeErrorView,
> {
    match member(members, field) {
        None => Ok(None),
        Some(JsonView::Null) => Ok(None),
        Some(JsonView::String(s)) => Ok(Some(s)),
        Some(other) => Err(
            DecodeErrorView::TypeMismatch {
                record,
                field,
                expected: JsonKind::String,
                actual: other.kind(),
            },
        ),
    }
}

/// The signed 64-bit integer that a JSON value holds, if it holds one.
pub open spec fn as_i64(json: JsonView) -> Option<i64> {
    match json {
        JsonView::Number(JsonNumber::I64(n)) => Some(n),
        JsonView::Number(JsonNumber::U64(n)) => if n <= i64::MAX {
            Some(n as i64)
        } else {
            None
        },
        _ => None,
    }
}

/// What reading a required integer field gives.
pub open spec fn required_integer(members: Members, record: Seq<char>, field: Seq<char>) -> Result<
    i64,
    DecodeErrorView,
> {
    match member(members, field) {
        None => Err(DecodeErrorView::MissingField { record, field }),
        Some(v) => match as_i64(v) {
            Some(n) => Ok(n),
            None => Err(
                DecodeErrorView::TypeMismatch {
                    record,
                    field,
                    expected: JsonKind::Integer,
                    actual: v.kind(),
                },
            ),
        },
    }
}

/// What reading an optional integer field gives: nothing where the
/// member is absent or null.
pub open spec fn optional_integer(members: Members, record: Seq<char>, field: Seq<char>) -> Result<
    Option<i64>,
    DecodeErrorView,
> {
    match member(members, field) {
        None => Ok(None),
        Some(JsonView::Null) => Ok(None),
        Some(v) => match as_i64(v) {
            Some(n) => Ok(Some(n)),
            None => Err(
                DecodeErrorView::TypeMismatch {
                    record,
                    field,
                    expected: JsonKind::Integer,
                    actual: v.kind(),
                },
            ),
        },
    }
}

/// What reading a required boolean field gives.
pub open spec fn required_flag(members: Members, record: Seq<char>, field: Seq<char>) -> Result<
    bool,
    DecodeErrorView,
> {
    match member(members, field) {
        None => Err(DecodeErrorView::MissingField { record, field }),
        Some(JsonView::Bool(b)) => Ok(b),
        Some(other) => Err(
            DecodeErrorView::TypeMismatch {
                record,
                field,
                expected: JsonKind::Bool,
                actual: other.kind(),
            },
        ),
    }
}

/// What reading a required field that can only be `true` gives.
pub open spec fn required_true(members: Members, record: Seq<char>, field: Seq<char>) -> Result<
    (),
    DecodeErrorView,
> {
    match member(members, field) {
        None => Err(DecodeErrorView::MissingField { record, field }),
        Some(JsonView::Bool(true)) => Ok(()),
        Some(other) => Err(
            DecodeErrorView::TypeMismatch {
                record,
                field,
                expected: JsonKind::True,
                actual: other.kind(),
            },
        ),
    }
}

/// What reading a required field of a decodable type gives: the error
/// of the field's own decoding where that fails.
pub open spec fn required_value<T: Decode>(
    members: Members,
    record: Seq<char>,
    field: Seq<char>,
) -> Result<T::V, DecodeErrorView> {
    match member(members, field) {
        None => Err(DecodeErrorView::MissingField { record, field }),
        Some(v) => T::decoded(v),
    }
}

/// Reads a required text field.
pub fn read_text(members: &Vec<(String, Json)>, record: &'static str, field: &'static str) -> (r:
    Result<String, DecodeError>)
    ensures
        result_view(r) == required_text(members_view(members@), record@, field@),
{
    match find_member(members, field) {
        None => Err(DecodeError::MissingField { record, field }),
        Some(Json::String(s)) => Ok(s.clone()),
        Some(other) => Err(
            DecodeError::TypeMismatch {
                record,
                field,
                expected: JsonKind::String,
                actual: other.kind(),
            },
        ),
    }
}

/// Reads an optional text field.
pub fn read_optional_text(
    members: &Vec<(String, Json)>,
    record: &'static str,
    field: &'static str,
) -> (r: Result<Option<String>, DecodeError>)
    ensures
        match r {
            Ok(Some(s)) => optional_text(members_view(members@), record@, field@)
                == Ok::<Option<Seq<char>>, DecodeErrorView>(Some(s@)),
            Ok(None) => optional_text(members_view(members@), record@, field@)
                == Ok::<Option<Seq<char>>, DecodeErrorView>(None),
            Err(e) => optional_text(members_view(members@), record@, field@)
                == Err::<Option<Seq<char>>, DecodeErrorView>(e@),
        },
{
    match find_member(members, field) {
        None => Ok(None),
        Some(Json::Null) => Ok(None),
        Some(Json::String(s)) => Ok(Some(s.clone())),
        Some(other) => Err(
            DecodeError::TypeMismatch {
                record,
                field,
                expected: JsonKind::String,
                actual: other.kind(),
            },
        ),
    }
}

/// The signed 64-bit integer that a JSON value holds, if it holds one.
pub fn json_i64(json: &Json) -> (r: Option<i64>)
    ensures
        r == as_i64(json@),
{
    match json {
        Json::Number(JsonNumber::I64(n)) => Some(*n),
        Json::Number(JsonNumber::U64(n)) => if *n <= 9223372036854775807u64 {
            Some(*n as i64)
        } else {
            None
        },
        _ => None,
    }
}

/// Reads a required integer field.
pub fn read_integer(members: &Vec<(String, Json)>, record: &'static str, field: &'static str) -> (r:
    Result<i64, DecodeError>)
    ensures
        match r {
            Ok(n) => required_integer(members_view(members@), record@, field@) == Ok::<
                i64,
                DecodeErrorView,
            >(n),
            Err(e) => required_integer(members_view(members@), record@, field@)
                == Err::<i64, DecodeErrorView>(e@),
        },
{
    match find_member(members, field) {
        None => Err(DecodeError::MissingField { record, field }),
        Some(v) => match json_i64(v) {
            Some(n) => Ok(n),
            None => Err(
                DecodeError::TypeMismatch {
                    record,
                    field,
                    expected: JsonKind::Integer,
                    actual: v.kind(),
                },
            ),
        },
    }
}

/// Reads an optional integer field.
pub fn read_optional_integer(
    members: &Vec<(String, Json)>,
    record: &'static str,
    field: &'static str,
) -> (r: Result<Option<i64>, DecodeError>)
    ensures
        match r {
            Ok(n) => optional_integer(members_view(members@), record@, field@) == Ok::<
                Option<i64>,
                DecodeErrorView,
            >(n),
            Err(e) => optional_integer(members_view(members@), record@, field@)
                == Err::<Option<i64>, DecodeErrorView>(e@),
        },
{
    match find_member(members, field) {
        None => Ok(None),
        Some(Json::Null) => Ok(None),
        Some(v) => match json_i64(v) {
            Some(n) => Ok(Some(n)),
            None => Err(
                DecodeError::TypeMismatch {
                    record,
                    field,
                    expected: JsonKind::Integer,
                    actual: v.kind(),
                },
            ),
        },
    }
}

/// Reads a required boolean field.
pub fn read_flag(members: &Vec<(String, Json)>, record: &'static str, field: &'static str) -> (r:
    Result<bool, DecodeError>)
    ensures
        match r {
            Ok(b) => required_flag(members_view(members@), record@, field@) == Ok::<
                bool,
                DecodeErrorView,
            >(b),
            Err(e) => required_flag(members_view(members@), record@, field@) == Err::<
                bool,
                DecodeErrorView,
            >(e@),
        },
{
    match find_member(members, field) {
        None => Err(DecodeError::MissingField { record, field }),
        Some(Json::Bool(b)) => Ok(*b),
        Some(other) => Err(
            DecodeError::TypeMismatch {
                record,
                field,
                expected: JsonKind::Bool,
                actual: other.kind(),
            },
        ),
    }
}

/// Reads a required field that can only be `true`.
pub fn read_true(members: &Vec<(String, Json)>, record: &'static str, field: &'static str) -> (r:
    Result<(), DecodeError>)
    ensures
        match r {
            Ok(_) => required_true(members_view(members@), record@, field@) == Ok::<
                (),
                DecodeErrorView,
            >(()),
            Err(e) => required_true(members_view(members@), record@, field@) == Err::<
                (),
                DecodeErrorView,
            >(e@),
        },
{
    match find_member(members, field) {
        None => Err(DecodeError::MissingField { record, field }),
        Some(Json::Bool(true)) => Ok(()),
        Some(other) => Err(
            DecodeError::TypeMismatch {
                record,
                field,
                expected: JsonKind::True,
                actual: other.kind(),
            },
        ),
    }
}

/// Reads a required field of a decodable type.
pub fn read_value<T: Decode>(
    members: &Vec<(String, Json)>,
    record: &'static str,
    field: &'static str,
) -> (r: Result<T, DecodeError>)
    ensures
        result_view(r) == required_value::<T>(members_view(members@), record@, field@),
{
    match find_member(members, field) {
        None => Err(DecodeError::MissingField { record, field }),
        Some(v) => T::decode(v),
    }
}

/// What decoding a text gives: nothing where the text is not accepted
/// as JSON, else what its value decodes to.
pub open spec fn decoded_text<T: Decode>(text: Option<JsonView>) -> Option<
    Result<T::V, DecodeErrorView>,
> {
    match text {
        None => None,
        Some(json) => Some(T::decoded(json)),
    }
}

/// Decodes the text of a response; `None` where the text is not
/// accepted as JSON.
pub fn decode_text<T: Decode>(text: &str) -> (r: Option<Result<T, DecodeError>>)
    ensures
        match r {
            Some(outcome) => decoded_text::<T>(accepted(text@)) == Some(result_view(outcome)),
            None => decoded_text::<T>(accepted(text@)) is None,
        },
{
    match parse(text) {
        None => None,
        Some(json) => Some(T::decode(&json)),
    }
}

} // verus!
