//! The record that stands for a deleted radar value list.

use crate::decode::{
    lemma_member_of_retained, member, read_text, read_true, required_text, required_true, retain,
    Decode, Members,
};
use crate::error::{DecodeError, DecodeErrorView, JsonKind};
use crate::ids::RadarValueListId;
use crate::json::{lemma_object_view, members_view, Json, JsonView};
use crate::object::Object;
use crate::text::str_eq;
use crate::types::AlwaysTrue;
use vstd::prelude::*;

verus! {

/// A radar value list that was deleted: its identifier, and the marker of the
/// deletion, which is always `true`.
#[derive(Clone, Debug, PartialEq, Eq)]
pub struct DeletedRadarValueList {
    #[allow(dead_code)]
    deleted: AlwaysTrue,
    /// Unique identifier for the object.
    pub id: RadarValueListId,
}

/// The mathematical content of a [`DeletedRadarValueList`].
pub ghost struct DeletedRadarValueListView {
    pub id: Seq<char>,
}

impl View for DeletedRadarValueList {
    type V = DeletedRadarValueListView;

    closed spec fn view(&self) -> DeletedRadarValueListView {
        DeletedRadarValueListView { id: self.id@ }
    }
}

/// A [`DeletedRadarValueList`] in the making, filled member by member.
#[derive(Clone, Debug, PartialEq, Eq)]
pub struct DeletedRadarValueListBuilder {
    pub deleted: Option<AlwaysTrue>,
    pub id: Option<RadarValueListId>,
}

/// The mathematical content of a [`DeletedRadarValueListBuilder`].
pub ghost struct DeletedRadarValueListBuilderView {
    pub deleted: bool,
    pub id: Option<Seq<char>>,
}

impl View for DeletedRadarValueListBuilder {
    type V = DeletedRadarValueListBuilderView;

    open spec fn view(&self) -> DeletedRadarValueListBuilderView {
        DeletedRadarValueListBuilderView {
            deleted: self.deleted is Some,
            id: match self.id {
                Some(id) => Some(id@),
                None => None,
            },
        }
    }
}

impl DeletedRadarValueListBuilderView {
    /// The builder with no field set.
    pub open spec fn empty() -> Self {
        DeletedRadarValueListBuilderView { deleted: false, id: None }
    }

    /// The builder after it was fed the member `k` with value `v`: a
    /// known field is set from a value of the right shape and refused
    /// with any other, a member of another name changes nothing.
    pub open spec fn fed(self, k: Seq<char>, v: JsonView) -> Result<Self, DecodeErrorView> {
        if k == "deleted"@ {
            match v {
                JsonView::Bool(true) => Ok(
                    DeletedRadarValueListBuilderView { deleted: true, ..self },
                ),
                other => Err(
                    DecodeErrorView::TypeMismatch {
                        record: "DeletedRadarValueList"@,
                        field: "deleted"@,
                        expected: JsonKind::True,
                        actual: other.kind(),
                    },
                ),
            }
        } else if k == "id"@ {
            match v {
                JsonView::String(s) => Ok(DeletedRadarValueListBuilderView { id: Some(s), ..self }),
                other => Err(
                    DecodeErrorView::TypeMismatch {
                        record: "DeletedRadarValueList"@,
                        field: "id"@,
                        expected: JsonKind::String,
                        actual: other.kind(),
                    },
                ),
            }
        } else {
            Ok(self)
        }
    }

    /// The builder after it was fed the members in order; the first
    /// member that is refused decides the error.
    pub open spec fn fed_all(self, members: Members) -> Result<Self, DecodeErrorView>
        decreases members.len(),
    {
        if members.len() == 0 {
            Ok(self)
        } else {
            match self.fed_all(members.drop_last()) {
                Err(e) => Err(e),
                Ok(b) => b.fed(members.last().0, members.last().1),
            }
        }
    }

    /// The record that the builder holds, once every field is set.
    pub open spec fn taken(self) -> Option<DeletedRadarValueListView> {
        if self.deleted && self.id is Some {
            Some(DeletedRadarValueListView { id: self.id->0 })
        } else {
            None
        }
    }
}

impl DeletedRadarValueListBuilder {
    /// The builder with no field set.
    pub fn deser_default() -> (r: Self)
        ensures
            r@ == DeletedRadarValueListBuilderView::empty(),
    {
        DeletedRadarValueListBuilder { deleted: None, id: None }
    }

    /// Feeds the builder one member of the object. On an error the
    /// builder is as it was.
    pub fn key(&mut self, k: &str, v: &Json) -> (r: Result<(), DecodeError>)
        ensures
            match r {
                Ok(_) => old(self)@.fed(k@, v@) == Ok::<
                    DeletedRadarValueListBuilderView,
                    DecodeErrorView,
                >(final(self)@),
                Err(e) => old(self)@.fed(k@, v@) == Err::<
                    DeletedRadarValueListBuilderView,
                    DecodeErrorView,
                >(e@) && final(self)@ == old(self)@,
            },
    {
        if str_eq(k, "deleted") {
            match v {
                Json::Bool(true) => {
                    self.deleted = Some(AlwaysTrue);
                    Ok(())
                },
                other => Err(
                    DecodeError::TypeMismatch {
                        record: "DeletedRadarValueList",
                        field: "deleted",
                        expected: JsonKind::True,
                        actual: other.kind(),
                    },
                ),
            }
        } else if str_eq(k, "id") {
            match v {
                Json::String(s) => {
                    self.id = Some(RadarValueListId(s.clone()));
                    Ok(())
                },
                other => Err(
                    DecodeError::TypeMismatch {
                        record: "DeletedRadarValueList",
                        field: "id",
                        expected: JsonKind::String,
                        actual: other.kind(),
                    },
                ),
            }
        } else {
            Ok(())
        }
    }

    /// Takes the finished record out, if every field is set; the builder
    /// then holds no identifier any more.
    pub fn take_out(&mut self) -> (r: Option<DeletedRadarValueList>)
        ensures
            match r {
                Some(out) => old(self)@.taken() == Some(out@),
                None => old(self)@.taken() is None,
            },
            final(self)@.deleted == old(self)@.deleted,
            final(self)@.id == if old(self)@.deleted {
                None
            } else {
                old(self)@.id
            },
    {
        match self.deleted {
            None => None,
            Some(deleted) => match self.id.take() {
                None => None,
                Some(id) => Some(DeletedRadarValueList { deleted, id }),
            },
        }
    }
}

impl DeletedRadarValueList {
    /// Whether a member name is that of a field of the record.
    pub open spec fn known_key(k: Seq<char>) -> bool {
        k == "deleted"@ || k == "id"@
    }

    /// What decoding an object with the given members gives: the fields
    /// are read in the order `deleted`, `id`, and the first that is
    /// missing or of the wrong shape decides the error.
    pub open spec fn decoded_members(members: Members) -> Result<
        DeletedRadarValueListView,
        DecodeErrorView,
    > {
        match required_true(members, "DeletedRadarValueList"@, "deleted"@) {
            Err(e) => Err(e),
            Ok(_) => match required_text(members, "DeletedRadarValueList"@, "id"@) {
                Err(e) => Err(e),
                Ok(id) => Ok(DeletedRadarValueListView { id }),
            },
        }
    }

    /// What feeding a fresh builder the members of an object gives in the
    /// end: the record, if no member is refused and every field is set.
    /// A value that is no object gives nothing.
    pub open spec fn built(json: JsonView) -> Option<DeletedRadarValueListView> {
        match json {
            JsonView::Object(members) => match DeletedRadarValueListBuilderView::empty().fed_all(
                members,
            ) {
                Ok(b) => b.taken(),
                Err(_) => None,
            },
            _ => None,
        }
    }

    /// Decodes a JSON value member by member, with nothing said of the
    /// reason where that fails.
    pub fn from_value(v: Json) -> (r: Option<Self>)
        ensures
            match r {
                Some(out) => Self::built(v@) == Some(out@),
                None => Self::built(v@) is None,
            },
    {
        match &v {
            Json::Object(members) => {
                proof {
                    lemma_object_view(*members);
                }
                let ghost all = members_view(members@);
                let mut b = DeletedRadarValueListBuilder::deser_default();
                let mut i: usize = 0;
                while i < members.len()
                    invariant
                        i <= members.len(),
                        all == members_view(members@),
                        v@ == JsonView::Object(all),
                        DeletedRadarValueListBuilderView::empty().fed_all(all.take(i as int))
                            == Ok::<DeletedRadarValueListBuilderView, DecodeErrorView>(b@),
                    decreases members.len() - i,
                {
                    proof {
                        let next = all.take(i + 1);
                        assert(next.drop_last() =~= all.take(i as int));
                        assert(next.last() == all[i as int]);
                    }
                    match b.key(members[i].0.as_str(), &members[i].1) {
                        Ok(_) => {},
                        Err(_) => {
                            proof {
                                Self::lemma_fed_all_fails(all, i + 1);
                            }
                            return None;
                        },
                    }
                    i += 1;
                }
                assert(all.take(i as int) =~= all);
                b.take_out()
            },
            _ => None,
        }
    }

    /// Once the members up to some point are refused, so are all of them.
    proof fn lemma_fed_all_fails(members: Members, n: int)
        requires
            0 <= n <= members.len(),
            DeletedRadarValueListBuilderView::empty().fed_all(members.take(n)) is Err,
        ensures
            DeletedRadarValueListBuilderView::empty().fed_all(members) is Err,
        decreases members.len() - n,
    {
        if n < members.len() {
            assert(members.take(n + 1).drop_last() =~= members.take(n));
            Self::lemma_fed_all_fails(members, n + 1);
        } else {
            assert(members.take(n) =~= members);
        }
    }

    /// The members that the record is written with: the marker, the
    /// identifier, and the name of the kind of object.
    pub open spec fn written(v: DeletedRadarValueListView) -> JsonView {
        JsonView::Object(
            seq![
                ("deleted"@, JsonView::Bool(true)),
                ("id"@, JsonView::String(v.id)),
                ("object"@, JsonView::String("radar.value_list"@)),
            ],
        )
    }

    /// The record as a JSON value.
    pub fn to_json(&self) -> (r: Json)
        ensures
            r@ == Self::written(self@),
    {
        let mut members: Vec<(String, Json)> = Vec::new();
        members.push(("deleted".to_owned(), Json::Bool(true)));
        members.push(("id".to_owned(), Json::String(self.id.0.clone())));
        members.push(("object".to_owned(), Json::String("radar.value_list".to_owned())));
        proof {
            lemma_object_view(members);
            assert(members_view(members@) =~= Self::written(self@)->Object_0);
        }
        Json::Object(members)
    }

    /// Members that are no fields of the record are ignored: the outcome
    /// is that of decoding the object without them.
    pub proof fn lemma_unknown_keys_ignored(members: Members)
        ensures
            Self::decoded(JsonView::Object(members)) == Self::decoded(
                JsonView::Object(retain(members, |k: Seq<char>| Self::known_key(k))),
            ),
    {
        let keep = |k: Seq<char>| Self::known_key(k);
        lemma_member_of_retained(members, keep, "deleted"@);
        lemma_member_of_retained(members, keep, "id"@);
    }

    /// An object with both fields decodes, whatever else it holds.
    pub proof fn lemma_complete_object_decodes(members: Members, id: Seq<char>)
        requires
            member(members, "deleted"@) == Some(JsonView::Bool(true)),
            member(members, "id"@) == Some(JsonView::String(id)),
        ensures
            Self::decoded(JsonView::Object(members)) == Ok::<
                DeletedRadarValueListView,
                DecodeErrorView,
            >(DeletedRadarValueListView { id }),
    {
    }

    /// An object without a member for a field does not decode. The error
    /// names the field, unless a field before it already failed.
    pub proof fn lemma_missing_field(members: Members, field: Seq<char>)
        requires
            Self::known_key(field),
            member(members, field) is None,
        ensures
            Self::decoded(JsonView::Object(members)) is Err,
            field == "deleted"@ || required_true(
                members,
                "DeletedRadarValueList"@,
                "deleted"@,
            ) is Ok ==> Self::decoded(JsonView::Object(members)) == Err::<
                DeletedRadarValueListView,
                DecodeErrorView,
            >(DecodeErrorView::MissingField { record: "DeletedRadarValueList"@, field }),
    {
        reveal_strlit("deleted");
        reveal_strlit("id");
        assert("deleted"@.len() != "id"@.len());
    }

    /// Feeding a builder the members of an object one by one comes to the
    /// same as decoding the object, if no member is refused: the builder
    /// then holds the record that the object decodes to, and holds none
    /// where the object does not decode.
    pub proof fn lemma_fed_is_decoded(members: Members)
        requires
            DeletedRadarValueListBuilderView::empty().fed_all(members) is Ok,
        ensures
            Self::built(JsonView::Object(members)) == match Self::decoded_members(members) {
                Ok(v) => Some(v),
                Err(_) => None,
            },
    {
        Self::lemma_fed_holds_last(members);
    }

    /// A builder that was fed members holds, for each field, what the
    /// last member of that name gave.
    proof fn lemma_fed_holds_last(members: Members)
        requires
            DeletedRadarValueListBuilderView::empty().fed_all(members) is Ok,
        ensures
            ({
                let b = DeletedRadarValueListBuilderView::empty().fed_all(members)->Ok_0;
                &&& b.deleted <==> member(members, "deleted"@) is Some
                &&& member(members, "deleted"@) matches Some(v) ==> v == JsonView::Bool(true)
                &&& b.id is Some <==> member(members, "id"@) is Some
                &&& member(members, "id"@) matches Some(v) ==> v == JsonView::String(b.id->0)
            }),
        decreases members.len(),
    {
        reveal_strlit("deleted");
        reveal_strlit("id");
        assert("deleted"@.len() == 7 && "id"@.len() == 2);
        if members.len() > 0 {
            Self::lemma_fed_holds_last(members.drop_last());
        }
    }

    /// What a written record decodes to is the record.
    pub proof fn lemma_written_decodes(v: DeletedRadarValueListView)
        ensures
            Self::decoded(Self::written(v)) == Ok::<DeletedRadarValueListView, DecodeErrorView>(v),
    {
        reveal_strlit("deleted");
        reveal_strlit("id");
        reveal_strlit("object");
        let members = Self::written(v)->Object_0;
        assert("deleted"@.len() == 7 && "id"@.len() == 2 && "object"@.len() == 6);
        reveal_with_fuel(member, 4);
        assert(members.drop_last().last() == members[1]);
        assert(members.drop_last().drop_last().last() == members[0]);
        assert(member(members, "id"@) == Some(JsonView::String(v.id)));
        assert(member(members, "deleted"@) == Some(JsonView::Bool(true)));
    }
}

impl Decode for DeletedRadarValueList {
    /// An object decodes by its members; anything else is a type
    /// mismatch of the value as a whole.
    open spec fn decoded(json: JsonView) -> Result<DeletedRadarValueListView, DecodeErrorView> {
        match json {
            JsonView::Object(members) => Self::decoded_members(members),
            other => Err(
                DecodeErrorView::TypeMismatch {
                    record: "DeletedRadarValueList"@,
                    field: ""@,
                    expected: JsonKind::Object,
                    actual: other.kind(),
                },
            ),
        }
    }

    fn decode(json: &Json) -> (r: Result<Self, DecodeError>) {
        match json {
            Json::Object(members) => {
                proof {
                    lemma_object_view(*members);
                }
                let _ = read_true(members, "DeletedRadarValueList", "deleted")?;
                let id = read_text(members, "DeletedRadarValueList", "id")?;
                Ok(DeletedRadarValueList { deleted: AlwaysTrue, id: RadarValueListId(id) })
            },
            other => Err(
                DecodeError::TypeMismatch {
                    record: "DeletedRadarValueList",
                    field: "",
                    expected: JsonKind::Object,
                    actual: other.kind(),
                },
            ),
        }
    }
}

impl Object for DeletedRadarValueList {
    type Id = RadarValueListId;

    open spec fn id_of(v: DeletedRadarValueListView) -> Seq<char> {
        v.id
    }

    fn id(&self) -> (r: &RadarValueListId) {
        &self.id
    }

    fn into_id(self) -> (r: RadarValueListId) {
        self.id
    }

    fn cursor(&self) -> (r: &str) {
        self.id.as_str()
    }
}

} // verus!
