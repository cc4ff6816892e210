//! The JSON tree that records are decoded from, and the parser behind it.

use crate::error::JsonKind;
use miniserde::json::Number as TreeNumber;
use miniserde::json::Value as Tree;
use vstd::prelude::*;
use vstd::string::StringSliceAdditionalSpecFns;
use vstd::utf8::encode_utf8;

verus! {

/// A JSON number as the parser classifies it.
#[derive(Clone, Copy, Debug, PartialEq, Eq, Structural)]
pub enum JsonNumber {
    /// A non-negative integer.
    U64(u64),
    /// A negative integer.
    I64(i64),
    /// Any other number, held as the bits of its binary64 form.
    Float(u64),
}

/// A parsed JSON value.
#[derive(Debug, PartialEq, Eq)]
pub enum Json {
    Null,
    Bool(bool),
    Number(JsonNumber),
    String(String),
    Array(Vec<Json>),
    /// The members in document order; a later member shadows an earlier one
    /// of the same name.
    Object(Vec<(String, Json)>),
}

/// The mathematical content of a [`Json`].
pub ghost enum JsonView {
    Null,
    Bool(bool),
    Number(JsonNumber),
    String(Seq<char>),
    Array(Seq<JsonView>),
    Object(Seq<(Seq<char>, JsonView)>),
}

impl JsonView {
    /// The shape of the value.
    pub open spec fn kind(self) -> JsonKind {
        match self {
            JsonView::Null => JsonKind::Null,
            JsonView::Bool(_) => JsonKind::Bool,
            JsonView::Number(JsonNumber::Float(_)) => JsonKind::Float,
            JsonView::Number(_) => JsonKind::Integer,
            JsonView::String(_) => JsonKind::String,
            JsonView::Array(_) => JsonKind::Array,
            JsonView::Object(_) => JsonKind::Object,
        }
    }
}

/// The content of a value.
pub open spec fn content(json: Json) -> JsonView
    decreases json, 0nat,
{
    match json {
        Json::Null => JsonView::Null,
        Json::Bool(b) => JsonView::Bool(b),
        Json::Number(n) => JsonView::Number(n),
        Json::String(s) => JsonView::String(s@),
        Json::Array(items) => JsonView::Array(items_content(items@)),
        Json::Object(members) => JsonView::Object(members_content(members@)),
    }
}

/// The content of the elements of an array, in order.
pub open spec fn items_content(items: Seq<Json>) -> Seq<JsonView>
    decreases items, 1nat,
{
    if items.len() == 0 {
        Seq::empty()
    } else {
        items_content(items.drop_last()).push(content(items.last()))
    }
}

/// The content of the members of an object, in order.
pub open spec fn members_content(members: Seq<(String, Json)>) -> Seq<(Seq<char>, JsonView)>
    decreases members, 1nat,
{
    if members.len() == 0 {
        Seq::empty()
    } else {
        members_content(members.drop_last()).push((members.last().0@, content(members.last().1)))
    }
}

impl View for Json {
    type V = JsonView;

    open spec fn view(&self) -> JsonView {
        content(*self)
    }
}

/// The content of the members of an object.
pub open spec fn members_view(members: Seq<(String, Json)>) -> Seq<(Seq<char>, JsonView)> {
    members.map_values(|m: (String, Json)| (m.0@, m.1@))
}

/// The content of the elements of an array.
pub open spec fn items_view(items: Seq<Json>) -> Seq<JsonView> {
    items.map_values(|v: Json| v@)
}

/// The content of a list of elements is the list of their contents.
pub proof fn lemma_items_content(items: Seq<Json>)
    ensures
        items_content(items) == items_view(items),
    decreases items.len(),
{
    if items.len() > 0 {
        lemma_items_content(items.drop_last());
    }
    assert(items_content(items) =~= items_view(items));
}

/// The content of a list of members is the list of their contents.
pub proof fn lemma_members_content(members: Seq<(String, Json)>)
    ensures
        members_content(members) == members_view(members),
    decreases members.len(),
{
    if members.len() > 0 {
        lemma_members_content(members.drop_last());
    }
    assert(members_content(members) =~= members_view(members));
}

/// An object's content is its members' content, in order.
pub proof fn lemma_object_view(members: Vec<(String, Json)>)
    ensures
        Json::Object(members)@ == JsonView::Object(members_view(members@)),
{
    lemma_members_content(members@);
}

/// An array's content is its elements' content, in order.
pub proof fn lemma_array_view(items: Vec<Json>)
    ensures
        Json::Array(items)@ == JsonView::Array(items_view(items@)),
{
    lemma_items_content(items@);
}

impl Clone for Json {
    #[verifier::loop_isolation(false)]
    fn clone(&self) -> (r: Self)
        ensures
            r@ == self@,
        decreases self,
    {
        match self {
            Json::Null => Json::Null,
            Json::Bool(b) => Json::Bool(*b),
            Json::Number(n) => Json::Number(*n),
            Json::String(s) => Json::String(s.clone()),
            Json::Array(items) => {
                let mut copy: Vec<Json> = Vec::new();
                let mut i: usize = 0;
                while i < items.len()
                    invariant
                        i <= items.len(),
                        items_view(copy@) == items_view(items@).take(i as int),
                    decreases items.len() - i,
                {
                    copy.push(items[i].clone());
                    assert(items_view(copy@) =~= items_view(items@).take(i + 1));
                    i += 1;
                }
                proof {
                    assert(items_view(items@).take(i as int) =~= items_view(items@));
                    lemma_array_view(*items);
                    lemma_array_view(copy);
                }
                Json::Array(copy)
            },
            Json::Object(members) => {
                let mut copy: Vec<(String, Json)> = Vec::new();
                let mut i: usize = 0;
                while i < members.len()
                    invariant
                        i <= members.len(),
                        members_view(copy@) == members_view(members@).take(i as int),
                    decreases members.len() - i,
                {
                    copy.push((members[i].0.clone(), members[i].1.clone()));
                    assert(members_view(copy@) =~= members_view(members@).take(i + 1));
                    i += 1;
                }
                proof {
                    assert(members_view(members@).take(i as int) =~= members_view(members@));
                    lemma_object_view(*members);
                    lemma_object_view(copy);
                }
                Json::Object(copy)
            },
        }
    }
}

impl Json {
    /// The shape of the value.
    pub fn kind(&self) -> (r: JsonKind)
        ensures
            r == self@.kind(),
    {
        match self {
            Json::Null => JsonKind::Null,
            Json::Bool(_) => JsonKind::Bool,
            Json::Number(JsonNumber::Float(_)) => JsonKind::Float,
            Json::Number(_) => JsonKind::Integer,
            Json::String(_) => JsonKind::String,
            Json::Array(_) => JsonKind::Array,
            Json::Object(_) => JsonKind::Object,
        }
    }
}

/// What `miniserde::json::from_str` makes of a text: the content of the
/// value that it parses to, or `None` where it rejects the text. Nothing
/// is proved of the parser; this is the name of what it returns.
pub uninterp spec fn parsed(text: Seq<char>) -> Option<JsonView>;

/// The content of a `miniserde::json::Value`, the parser's own tree.
pub uninterp spec fn tree_content(tree: Tree) -> JsonView;

/// The parser's tree, `miniserde::json::Value`. The verifier does not
/// look inside.
#[verifier::external_type_specification]
#[verifier::external_body]
pub struct ExTree(Tree);

/// The parser's error, `miniserde::Error`. It says nothing of the
/// reason.
#[verifier::external_type_specification]
#[verifier::external_body]
pub struct ExParseError(miniserde::Error);

/// Calls `miniserde::json::from_str` at the parser's own tree type.
/// Believed, not proved: the outcome depends on the characters of the
/// text alone: the same text gives the same tree or the same refusal.
#[verifier::external_body]
fn parse_tree(text: &str) -> (r: Result<Tree, miniserde::Error>)
    ensures
        match r {
            Ok(tree) => parsed(text@) == Some(tree_content(tree)),
            Err(_) => parsed(text@) is None,
        },
{
    miniserde::json::from_str::<Tree>(text)
}

/// Moves a `miniserde::json::Value` into a [`Json`], variant by variant:
/// scalars as they are, a float by its bits, the elements of an array in
/// order, the members of an object in the order in which the parser's
/// map hands them out. Believed, not proved: the content of the result
/// is the content of the tree.
#[verifier::external_body]
fn lift(tree: Tree) -> (r: Json)
    ensures
        r@ == tree_content(tree),
{
    match tree {
        Tree::Null => Json::Null,
        Tree::Bool(b) => Json::Bool(b),
        Tree::Number(TreeNumber::U64(n)) => Json::Number(JsonNumber::U64(n)),
        Tree::Number(TreeNumber::I64(n)) => Json::Number(JsonNumber::I64(n)),
        Tree::Number(TreeNumber::F64(x)) => Json::Number(JsonNumber::Float(x.to_bits())),
        Tree::String(s) => Json::String(s),
        Tree::Array(items) => Json::Array(items.into_iter().map(lift).collect()),
        Tree::Object(members) => Json::Object(
            members.into_iter().map(|(k, v)| (k, lift(v))).collect(),
        ),
    }
}

/// The deepest nesting of arrays and objects that a text may have.
pub const MAX_DEPTH: usize = 128;

/// Where a scan of a text for its brackets stands.
pub struct Scan {
    /// How many brackets are open.
    pub depth: usize,
    /// The most that were open at once.
    pub deepest: usize,
    /// Whether the scan is inside a string.
    pub in_string: bool,
    /// Whether the scan is behind a backslash inside a string.
    pub escaped: bool,
}

impl Scan {
    /// The scan before the first byte.
    pub open spec fn start() -> Scan {
        Scan { depth: 0, deepest: 0, in_string: false, escaped: false }
    }

    /// The scan after one more byte. Inside a string only the closing
    /// quote counts, and that not behind a backslash; outside, an
    /// opening bracket or brace goes one level down and a closing one
    /// comes one level up.
    pub open spec fn step(self, b: u8) -> Scan {
        if self.in_string {
            if self.escaped {
                Scan { escaped: false, ..self }
            } else if b == 0x5c {
                Scan { escaped: true, ..self }
            } else if b == 0x22 {
                Scan { in_string: false, ..self }
            } else {
                self
            }
        } else if b == 0x22 {
            Scan { in_string: true, ..self }
        } else if b == 0x5b || b == 0x7b {
            if self.depth < usize::MAX {
                Scan {
                    depth: (self.depth + 1) as usize,
                    deepest: if self.depth + 1 > self.deepest {
                        (self.depth + 1) as usize
                    } else {
                        self.deepest
                    },
                    ..self
                }
            } else {
                self
            }
        } else if (b == 0x5d || b == 0x7d) && self.depth > 0 {
            Scan { depth: (self.depth - 1) as usize, ..self }
        } else {
            self
        }
    }

    /// The scan after all the bytes.
    pub open spec fn over(bytes: Seq<u8>) -> Scan
        decreases bytes.len(),
    {
        if bytes.len() == 0 {
            Scan::start()
        } else {
            Scan::over(bytes.drop_last()).step(bytes.last())
        }
    }
}

/// How deeply the arrays and objects of a text are nested, going by its
/// brackets outside of strings.
pub open spec fn nesting(text: Seq<char>) -> nat {
    Scan::over(encode_utf8(text)).deepest as nat
}

/// What parsing a text gives: nothing where the text is nested deeper
/// than [`MAX_DEPTH`], else what the parser makes of it.
pub open spec fn accepted(text: Seq<char>) -> Option<JsonView> {
    if nesting(text) > MAX_DEPTH {
        None
    } else {
        parsed(text)
    }
}

/// How deeply the arrays and objects of a text are nested.
pub fn nesting_of(text: &str) -> (r: usize)
    ensures
        r == nesting(text@),
{
    let bytes = text.as_bytes();
    let mut scan = Scan { depth: 0, deepest: 0, in_string: false, escaped: false };
    let mut i: usize = 0;
    assert(bytes@.take(0) =~= Seq::<u8>::empty());
    while i < bytes.len()
        invariant
            i <= bytes.len(),
            bytes@ == text.spec_bytes(),
            scan == Scan::over(bytes@.take(i as int)),
        decreases bytes.len() - i,
    {
        let b = bytes[i];
        proof {
            let next = bytes@.take(i + 1);
            assert(next.drop_last() =~= bytes@.take(i as int));
            assert(next.last() == b);
        }
        if scan.in_string {
            if scan.escaped {
                scan.escaped = false;
            } else if b == 0x5c {
                scan.escaped = true;
            } else if b == 0x22 {
                scan.in_string = false;
            }
        } else if b == 0x22 {
            scan.in_string = true;
        } else if b == 0x5b || b == 0x7b {
            if scan.depth < usize::MAX {
                scan.depth = scan.depth + 1;
                if scan.depth > scan.deepest {
                    scan.deepest = scan.depth;
                }
            }
        } else if (b == 0x5d || b == 0x7d) && scan.depth > 0 {
            scan.depth = scan.depth - 1;
        }
        i += 1;
    }
    assert(bytes@.take(i as int) =~= bytes@);
    scan.deepest
}

/// Parses a JSON text. A text that is nested too deeply is refused like
/// one that is no JSON.
pub fn parse(text: &str) -> (r: Option<Json>)
    ensures
        match r {
            Some(v) => accepted(text@) == Some(v@),
            None => accepted(text@) is None,
        },
{
    if nesting_of(text) > MAX_DEPTH {
        return None;
    }
    match parse_tree(text) {
        Ok(tree) => Some(lift(tree)),
        Err(_) => None,
    }
}

} // verus!
