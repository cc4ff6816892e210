//! One page of a list endpoint.

use crate::decode::{find_member, lemma_member_of_retained, member, retain, Decode, Members};
use crate::error::{result_view, DecodeError, DecodeErrorView};
use crate::json::{
    accepted, items_view, lemma_array_view, lemma_object_view, parse, Json, JsonView,
};
use vstd::prelude::*;

verus! {

/// A page of objects, in the order in which the server returned them.
#[derive(Clone, Debug, PartialEq, Eq)]
pub struct List<T> {
    pub data: Vec<T>,
    /// Whether another page follows this one.
    pub has_more: bool,
    /// The URL that the page was fetched from; empty where the server
    /// did not say.
    pub url: String,
}

/// The mathematical content of a [`List`].
pub ghost struct ListView<V> {
    pub data: Seq<V>,
    pub has_more: bool,
    pub url: Seq<char>,
}

/// The contents of a list of records.
pub open spec fn data_view<T: View>(data: Seq<T>) -> Seq<T::V> {
    data.map_values(|x: T| x@)
}

impl<T: View> View for List<T> {
    type V = ListView<T::V>;

    open spec fn view(&self) -> ListView<T::V> {
        ListView { data: data_view(self.data@), has_more: self.has_more, url: self.url@ }
    }
}

/// What decoding every element of an array gives: the records in order,
/// or the error of the first element that does not decode.
pub open spec fn decoded_all<T: Decode>(items: Seq<JsonView>) -> Result<Seq<T::V>, DecodeErrorView>
    decreases items.len(),
{
    if items.len() == 0 {
        Ok(Seq::empty())
    } else {
        match decoded_all::<T>(items.drop_last()) {
            Err(e) => Err(e),
            Ok(before) => match T::decoded(items.last()) {
                Err(e) => Err(e),
                Ok(v) => Ok(before.push(v)),
            },
        }
    }
}

/// What the `url` member of a page gives: its text, nothing where it is
/// absent or null, and a malformed page with any other value.
pub open spec fn page_url(members: Members) -> Result<Seq<char>, DecodeErrorView> {
    match member(members, "url"@) {
        None => Ok(Seq::empty()),
        Some(JsonView::Null) => Ok(Seq::empty()),
        Some(JsonView::String(s)) => Ok(s),
        Some(_) => Err(DecodeErrorView::MalformedPage),
    }
}

/// What decoding a page gives. The page is malformed unless it is an
/// object with an array `data` and a boolean `has_more`; then the
/// elements of `data` are decoded in order, and the first that fails
/// decides the error.
pub open spec fn decoded_page<T: Decode>(json: JsonView) -> Result<
    ListView<T::V>,
    DecodeErrorView,
> {
    match json {
        JsonView::Object(members) => {
            let data = member(members, "data"@);
            let has_more = member(members, "has_more"@);
            match (data, has_more) {
                (Some(JsonView::Array(items)), Some(JsonView::Bool(has_more))) => match page_url(
                    members,
                ) {
                    Err(e) => Err(e),
                    Ok(url) => match decoded_all::<T>(items) {
                        Err(e) => Err(e),
                        Ok(data) => Ok(ListView { data, has_more, url }),
                    },
                },
                _ => Err(DecodeErrorView::MalformedPage),
            }
        },
        _ => Err(DecodeErrorView::MalformedPage),
    }
}

/// What decoding the text of a response gives: a malformed page where
/// the text is no JSON, else what its value decodes to.
pub open spec fn decoded_page_text<T: Decode>(text: Option<JsonView>) -> Result<
    ListView<T::V>,
    DecodeErrorView,
> {
    match text {
        None => Err(DecodeErrorView::MalformedPage),
        Some(json) => decoded_page::<T>(json),
    }
}

/// Whether a member name is that of a field of a page.
pub open spec fn page_key(k: Seq<char>) -> bool {
    k == "data"@ || k == "has_more"@ || k == "url"@
}

/// Members that are no fields of a page are ignored: the outcome is that
/// of decoding the page without them.
pub proof fn lemma_page_unknown_keys_ignored<T: Decode>(members: Members)
    ensures
        decoded_page::<T>(JsonView::Object(members)) == decoded_page::<T>(
            JsonView::Object(retain(members, |k: Seq<char>| page_key(k))),
        ),
{
    let keep = |k: Seq<char>| page_key(k);
    lemma_member_of_retained(members, keep, "data"@);
    lemma_member_of_retained(members, keep, "has_more"@);
    lemma_member_of_retained(members, keep, "url"@);
}

/// A page without `data` or without `has_more` is malformed.
pub proof fn lemma_page_missing_field<T: Decode>(members: Members)
    requires
        member(members, "data"@) is None || member(members, "has_more"@) is None,
    ensures
        decoded_page::<T>(JsonView::Object(members)) == Err::<ListView<T::V>, DecodeErrorView>(
            DecodeErrorView::MalformedPage,
        ),
{
}

/// Decodes every element of an array.
pub fn decode_all<T: Decode>(items: &Vec<Json>) -> (r: Result<Vec<T>, DecodeError>)
    ensures
        match r {
            Ok(data) => decoded_all::<T>(items_view(items@)) == Ok::<Seq<T::V>, DecodeErrorView>(
                data_view(data@),
            ),
            Err(e) => decoded_all::<T>(items_view(items@)) == Err::<Seq<T::V>, DecodeErrorView>(
                e@,
            ),
        },
{
    let ghost all = items_view(items@);
    let mut data: Vec<T> = Vec::new();
    let mut i: usize = 0;
    assert(data_view(data@) =~= Seq::<T::V>::empty());
    while i < items.len()
        invariant
            i <= items.len(),
            all == items_view(items@),
            decoded_all::<T>(all.take(i as int)) == Ok::<Seq<T::V>, DecodeErrorView>(
                data_view(data@),
            ),
        decreases items.len() - i,
    {
        proof {
            let next = all.take(i + 1);
            assert(next.drop_last() =~= all.take(i as int));
            assert(next.last() == items[i as int]@);
        }
        match T::decode(&items[i]) {
            Ok(v) => {
                proof {
                    assert(data_view(data@.push(v)) =~= data_view(data@).push(v@));
                }
                data.push(v);
            },
            Err(e) => {
                proof {
                    lemma_decoded_all_fails::<T>(all, i + 1);
                }
                return Err(e);
            },
        }
        i += 1;
    }
    assert(all.take(i as int) =~= all);
    Ok(data)
}

/// Once the elements up to some point fail to decode, so does the whole
/// array, with the same error.
pub proof fn lemma_decoded_all_fails<T: Decode>(items: Seq<JsonView>, n: int)
    requires
        0 <= n <= items.len(),
        decoded_all::<T>(items.take(n)) is Err,
    ensures
        decoded_all::<T>(items) == decoded_all::<T>(items.take(n)),
    decreases items.len() - n,
{
    if n < items.len() {
        assert(items.take(n + 1).drop_last() =~= items.take(n));
        lemma_decoded_all_fails::<T>(items, n + 1);
    } else {
        assert(items.take(n) =~= items);
    }
}

impl<T: Decode> Decode for List<T> {
    open spec fn decoded(json: JsonView) -> Result<ListView<T::V>, DecodeErrorView> {
        decoded_page::<T>(json)
    }

    fn decode(json: &Json) -> (r: Result<Self, DecodeError>) {
        match json {
            Json::Object(members) => {
                proof {
                    lemma_object_view(*members);
                }
                let items = match find_member(members, "data") {
                    Some(Json::Array(items)) => items,
                    _ => {
                        return Err(DecodeError::MalformedPage);
                    },
                };
                let has_more = match find_member(members, "has_more") {
                    Some(Json::Bool(b)) => *b,
                    _ => {
                        return Err(DecodeError::MalformedPage);
                    },
                };
                let url = match find_member(members, "url") {
                    None => String::new(),
                    Some(Json::Null) => String::new(),
                    Some(Json::String(s)) => s.clone(),
                    Some(_) => {
                        return Err(DecodeError::MalformedPage);
                    },
                };
                proof {
                    lemma_array_view(*items);
                }
                let data = decode_all::<T>(items)?;
                Ok(List { data, has_more, url })
            },
            _ => Err(DecodeError::MalformedPage),
        }
    }
}

/// Decodes the text of a response into a page.
pub fn decode_page_text<T: Decode>(text: &str) -> (r: Result<List<T>, DecodeError>)
    ensures
        result_view(r) == decoded_page_text::<T>(accepted(text@)),
{
    match parse(text) {
        None => Err(DecodeError::MalformedPage),
        Some(json) => List::<T>::decode(&json),
    }
}

} // verus!
