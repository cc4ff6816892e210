//! Objects that the server may report as deleted.

use crate::decode::{find_member, member, Decode};
use crate::error::{DecodeError, DecodeErrorView};
use crate::json::{lemma_object_view, Json, JsonView};
use vstd::prelude::*;

verus! {

/// An object as it is, or what is left of it once it is deleted.
#[derive(Clone, Debug, PartialEq, Eq)]
pub enum MaybeDeleted<L, D> {
    Live(L),
    Deleted(D),
}

/// The mathematical content of a [`MaybeDeleted`].
pub ghost enum MaybeDeletedView<L, D> {
    Live(L),
    Deleted(D),
}

impl<L: View, D: View> View for MaybeDeleted<L, D> {
    type V = MaybeDeletedView<L::V, D::V>;

    open spec fn view(&self) -> MaybeDeletedView<L::V, D::V> {
        match self {
            MaybeDeleted::Live(v) => MaybeDeletedView::Live(v@),
            MaybeDeleted::Deleted(v) => MaybeDeletedView::Deleted(v@),
        }
    }
}

/// Whether a value stands for a deleted object: an object whose member
/// `deleted` is `true`.
pub open spec fn is_tombstone(json: JsonView) -> bool {
    match json {
        JsonView::Object(members) => member(members, "deleted"@) == Some(JsonView::Bool(true)),
        _ => false,
    }
}

/// Whether a value stands for a deleted object.
pub fn tombstone(json: &Json) -> (r: bool)
    ensures
        r == is_tombstone(json@),
{
    match json {
        Json::Object(members) => {
            proof {
                lemma_object_view(*members);
            }
            match find_member(members, "deleted") {
                Some(Json::Bool(true)) => true,
                _ => false,
            }
        },
        _ => false,
    }
}

/// The flag alone decides the variant: a value decodes to a deleted
/// object only if it is a tombstone, and to a live one only if it is
/// none.
pub proof fn lemma_flag_decides<L: Decode, D: Decode>(json: JsonView)
    ensures
        match MaybeDeleted::<L, D>::decoded(json) {
            Ok(MaybeDeletedView::Deleted(_)) => is_tombstone(json),
            Ok(MaybeDeletedView::Live(_)) => !is_tombstone(json),
            Err(_) => true,
        },
{
}

impl<L: Decode, D: Decode> Decode for MaybeDeleted<L, D> {
    /// The flag decides which record is decoded, before any other member
    /// is looked at: a tombstone decodes as the deleted record, any other
    /// value as the live one.
    open spec fn decoded(json: JsonView) -> Result<MaybeDeletedView<L::V, D::V>, DecodeErrorView> {
        if is_tombstone(json) {
            match D::decoded(json) {
                Ok(v) => Ok(MaybeDeletedView::Deleted(v)),
                Err(e) => Err(e),
            }
        } else {
            match L::decoded(json) {
                Ok(v) => Ok(MaybeDeletedView::Live(v)),
                Err(e) => Err(e),
            }
        }
    }

    fn decode(json: &Json) -> (r: Result<Self, DecodeError>) {
        if tombstone(json) {
            match D::decode(json) {
                Ok(v) => Ok(MaybeDeleted::Deleted(v)),
                Err(e) => Err(e),
            }
        } else {
            match L::decode(json) {
                Ok(v) => Ok(MaybeDeleted::Live(v)),
                Err(e) => Err(e),
            }
        }
    }
}

} // verus!
