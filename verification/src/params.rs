//! Request parameters as an ordered list of key/value pairs.
//!
//! A field of a nested record is keyed by the path to it, each step below
//! the first in square brackets: `price_data[recurring][interval]`. The
//! elements of a list are keyed by their index: `expand[0]`.

use crate::text::{decimal, push_decimal, push_signed_decimal, signed_decimal, str_eq};
use vstd::prelude::*;
use vstd::string::StringExecFns;

verus! {

/// One request parameter.
#[derive(Clone, Debug, PartialEq, Eq)]
pub struct Param {
    pub key: String,
    pub value: String,
}

impl View for Param {
    type V = (Seq<char>, Seq<char>);

    open spec fn view(&self) -> (Seq<char>, Seq<char>) {
        (self.key@, self.value@)
    }
}

/// Parameters as mathematical pairs of key and value, in order.
pub type Pairs = Seq<(Seq<char>, Seq<char>)>;

/// The pairs that a list of parameters holds, in order.
pub open spec fn pairs(params: Seq<Param>) -> Pairs {
    params.map_values(|p: Param| p@)
}

/// The key of the field `name` of the record keyed by `prefix`; the
/// empty prefix is the top level.
pub open spec fn field_key(prefix: Seq<char>, name: Seq<char>) -> Seq<char> {
    if prefix.len() == 0 {
        name
    } else {
        prefix + seq!['['] + name + seq![']']
    }
}

/// The key of element `index` of the list keyed by `key`.
pub open spec fn index_key(key: Seq<char>, index: nat) -> Seq<char> {
    key + seq!['['] + decimal(index) + seq![']']
}

/// Whether `k` is a key below `key`: `key` followed by a step in square
/// brackets.
pub open spec fn under(k: Seq<char>, key: Seq<char>) -> bool {
    k.len() > key.len() && k.subrange(0, key.len() as int) == key && k[key.len() as int] == '['
}

/// The text of a boolean parameter.
pub open spec fn bool_text(b: bool) -> Seq<char> {
    if b {
        "true"@
    } else {
        "false"@
    }
}

/// The view of an optional text.
pub open spec fn opt_str_view(value: Option<&str>) -> Option<Seq<char>> {
    match value {
        Some(v) => Some(v@),
        None => None,
    }
}

/// The views of a list of texts.
pub open spec fn list_view(items: Seq<&str>) -> Seq<Seq<char>> {
    items.map_values(|s: &str| s@)
}

/// The view of an optional list of texts.
pub open spec fn opt_list_view(value: Option<&[&str]>) -> Option<Seq<Seq<char>>> {
    match value {
        Some(v) => Some(list_view(v@)),
        None => None,
    }
}

/// The parameter of an optional text field: one pair where it is set.
pub open spec fn opt_text(key: Seq<char>, value: Option<Seq<char>>) -> Pairs {
    match value {
        Some(v) => seq![(key, v)],
        None => Seq::empty(),
    }
}

/// The parameter of an optional signed integer field.
pub open spec fn opt_int(key: Seq<char>, value: Option<i64>) -> Pairs {
    match value {
        Some(v) => seq![(key, signed_decimal(v as int))],
        None => Seq::empty(),
    }
}

/// The parameter of an optional unsigned integer field.
pub open spec fn opt_nat(key: Seq<char>, value: Option<u64>) -> Pairs {
    match value {
        Some(v) => seq![(key, decimal(v as nat))],
        None => Seq::empty(),
    }
}

/// The parameter of an optional boolean field.
pub open spec fn opt_bool(key: Seq<char>, value: Option<bool>) -> Pairs {
    match value {
        Some(v) => seq![(key, bool_text(v))],
        None => Seq::empty(),
    }
}

/// The parameters of a list of texts: one pair for each element, keyed by
/// its index.
pub open spec fn text_list(key: Seq<char>, items: Seq<Seq<char>>) -> Pairs {
    Seq::new(items.len(), |i: int| (index_key(key, i as nat), items[i]))
}

/// The parameters of an optional list of texts.
pub open spec fn opt_text_list(key: Seq<char>, items: Option<Seq<Seq<char>>>) -> Pairs {
    match items {
        Some(items) => text_list(key, items),
        None => Seq::empty(),
    }
}

/// Whether some parameter has the key.
pub open spec fn has_param(params: Pairs, key: Seq<char>) -> bool {
    exists|i: int| 0 <= i < params.len() && (#[trigger] params[i]).0 == key
}

/// A parameter after `key` is set to `value`: changed if it has the key.
pub open spec fn replaced(p: (Seq<char>, Seq<char>), key: Seq<char>, value: Seq<char>) -> (
    Seq<char>,
    Seq<char>,
) {
    if p.0 == key {
        (key, value)
    } else {
        p
    }
}

/// The parameters with `key` set to `value`: every parameter of that key
/// takes the value in place; where there is none, one is added at the end.
pub open spec fn with_param(
    params: Pairs,
    key: Seq<char>,
    value: Seq<char>,
) -> Pairs {
    if has_param(params, key) {
        params.map_values(|p: (Seq<char>, Seq<char>)| replaced(p, key, value))
    } else {
        params.push((key, value))
    }
}

/// The pairs of a list with one more parameter are the pairs with one
/// more pair.
proof fn lemma_pairs_push(params: Seq<Param>, p: Param)
    ensures
        pairs(params.push(p)) == pairs(params).push(p@),
{
    assert(pairs(params.push(p)) =~= pairs(params).push(p@));
}

/// A key of two lists is a key of one of them.
pub proof fn lemma_has_param_concat(a: Pairs, b: Pairs, k: Seq<char>)
    ensures
        has_param(a + b, k) <==> has_param(a, k) || has_param(b, k),
{
    if has_param(a, k) {
        let i = choose|i: int| 0 <= i < a.len() && (#[trigger] a[i]).0 == k;
        assert((a + b)[i].0 == k);
    }
    if has_param(b, k) {
        let i = choose|i: int| 0 <= i < b.len() && (#[trigger] b[i]).0 == k;
        assert((a + b)[a.len() + i].0 == k);
    }
    if has_param(a + b, k) {
        let i = choose|i: int| 0 <= i < (a + b).len() && (#[trigger] (a + b)[i]).0 == k;
        if i < a.len() {
            assert(a[i].0 == k);
        } else {
            assert(b[i - a.len()].0 == k);
        }
    }
}

/// No parameters, no key.
pub proof fn lemma_has_param_empty(k: Seq<char>)
    ensures
        !has_param(Pairs::empty(), k),
{
}

/// One parameter has its own key and no other.
pub proof fn lemma_has_param_one(key: Seq<char>, value: Seq<char>, k: Seq<char>)
    ensures
        has_param(seq![(key, value)], k) <==> key == k,
{
    if key == k {
        assert(seq![(key, value)][0].0 == k);
    }
}

/// An optional text field has its key where it is set, and no other.
pub proof fn lemma_has_param_opt_text(key: Seq<char>, value: Option<Seq<char>>, k: Seq<char>)
    ensures
        has_param(opt_text(key, value), k) <==> value is Some && key == k,
{
    if value is Some {
        lemma_has_param_one(key, value->0, k);
    }
}

/// An optional integer field has its key where it is set, and no other.
pub proof fn lemma_has_param_opt_int(key: Seq<char>, value: Option<i64>, k: Seq<char>)
    ensures
        has_param(opt_int(key, value), k) <==> value is Some && key == k,
{
    if value is Some {
        lemma_has_param_one(key, signed_decimal(value->0 as int), k);
    }
}

/// The keys of the elements of a list are below the key of the list.
pub proof fn lemma_text_list_keys(key: Seq<char>, items: Seq<Seq<char>>, k: Seq<char>)
    requires
        has_param(text_list(key, items), k),
    ensures
        under(k, key),
{
    let i = choose|i: int|
        0 <= i < text_list(key, items).len() && (#[trigger] text_list(key, items)[i]).0 == k;
    assert(k == index_key(key, i as nat));
    assert(k.subrange(0, key.len() as int) =~= key);
}

/// The key of a field of a record is below the key of the record.
pub proof fn lemma_field_key_under(prefix: Seq<char>, name: Seq<char>)
    requires
        prefix.len() > 0,
    ensures
        under(field_key(prefix, name), prefix),
{
    assert(field_key(prefix, name).subrange(0, prefix.len() as int) =~= prefix);
}

/// Setting a key adds that key and no other.
pub proof fn lemma_with_param_keys(
    params: Pairs,
    key: Seq<char>,
    value: Seq<char>,
    other: Seq<char>,
)
    ensures
        has_param(with_param(params, key, value), other) <==> other == key || has_param(
            params,
            other,
        ),
{
    let after = with_param(params, key, value);
    if has_param(params, key) {
        let k = choose|i: int| 0 <= i < params.len() && (#[trigger] params[i]).0 == key;
        assert(after[k].0 == key);
        if has_param(params, other) {
            let j = choose|i: int| 0 <= i < params.len() && (#[trigger] params[i]).0 == other;
            assert(after[j].0 == other);
        }
        if has_param(after, other) {
            let j = choose|i: int| 0 <= i < after.len() && (#[trigger] after[i]).0 == other;
            assert(params[j].0 == other || other == key);
        }
    } else {
        assert(after[params.len() as int].0 == key);
        if has_param(params, other) {
            let j = choose|i: int| 0 <= i < params.len() && (#[trigger] params[i]).0 == other;
            assert(after[j].0 == other);
        }
        if has_param(after, other) {
            let j = choose|i: int| 0 <= i < after.len() && (#[trigger] after[i]).0 == other;
            if j < params.len() {
                assert(params[j].0 == other);
            }
        }
    }
}

/// Setting a key leaves the parameters of other keys as and where they
/// are.
pub proof fn lemma_with_param_keeps_others(
    params: Pairs,
    key: Seq<char>,
    value: Seq<char>,
    i: int,
)
    requires
        0 <= i < params.len(),
        params[i].0 != key,
    ensures
        i < with_param(params, key, value).len(),
        with_param(params, key, value)[i] == params[i],
{
}

/// An empty list of parameters.
pub fn no_params() -> (r: Vec<Param>)
    ensures
        pairs(r@) == Pairs::empty(),
{
    let r: Vec<Param> = Vec::new();
    assert(pairs(r@) =~= Pairs::empty());
    r
}

/// The prefix of the top level: the empty text.
pub fn top_level() -> (r: &'static str)
    ensures
        r@ == Seq::<char>::empty(),
{
    proof {
        reveal_strlit("");
    }
    assert(""@ =~= Seq::<char>::empty());
    ""
}

/// Builds the key of a field.
pub fn make_field_key(prefix: &str, name: &str) -> (r: String)
    ensures
        r@ == field_key(prefix@, name@),
{
    if prefix.unicode_len() == 0 {
        name.to_owned()
    } else {
        let mut key = prefix.to_owned();
        proof {
            reveal_strlit("[");
            reveal_strlit("]");
        }
        key.append("[");
        key.append(name);
        key.append("]");
        assert(key@ =~= field_key(prefix@, name@));
        key
    }
}

/// Builds the key of a list element.
pub fn make_index_key(key: &str, index: usize) -> (r: String)
    ensures
        r@ == index_key(key@, index as nat),
{
    let mut out = key.to_owned();
    proof {
        reveal_strlit("[");
        reveal_strlit("]");
    }
    out.append("[");
    push_decimal(&mut out, index as u64);
    out.append("]");
    assert(out@ =~= index_key(key@, index as nat));
    out
}

/// Appends one pair.
pub fn push_text(out: &mut Vec<Param>, key: String, value: &str)
    ensures
        pairs(final(out)@) == pairs(old(out)@) + seq![(key@, value@)],
{
    let p = Param { key, value: value.to_owned() };
    proof {
        lemma_pairs_push(out@, p);
        assert(pairs(out@).push(p@) =~= pairs(out@) + seq![p@]);
    }
    out.push(p);
}

/// Appends the pair of a text field.
pub fn push_field_text(out: &mut Vec<Param>, prefix: &str, name: &str, value: &str)
    ensures
        pairs(final(out)@) == pairs(old(out)@) + seq![(field_key(prefix@, name@), value@)],
{
    let key = make_field_key(prefix, name);
    push_text(out, key, value);
}

/// Appends the pair of a signed integer field.
pub fn push_field_i64(out: &mut Vec<Param>, prefix: &str, name: &str, value: i64)
    ensures
        pairs(final(out)@) == pairs(old(out)@) + seq![
            (field_key(prefix@, name@), signed_decimal(value as int)),
        ],
{
    let mut text = String::new();
    push_signed_decimal(&mut text, value);
    assert(text@ =~= signed_decimal(value as int));
    push_field_text(out, prefix, name, text.as_str());
}

/// Appends the pair of an unsigned integer field.
pub fn push_field_u64(out: &mut Vec<Param>, prefix: &str, name: &str, value: u64)
    ensures
        pairs(final(out)@) == pairs(old(out)@) + seq![
            (field_key(prefix@, name@), decimal(value as nat)),
        ],
{
    let mut text = String::new();
    push_decimal(&mut text, value);
    assert(text@ =~= decimal(value as nat));
    push_field_text(out, prefix, name, text.as_str());
}

/// Appends the pair of a boolean field.
pub fn push_field_bool(out: &mut Vec<Param>, prefix: &str, name: &str, value: bool)
    ensures
        pairs(final(out)@) == pairs(old(out)@) + seq![
            (field_key(prefix@, name@), bool_text(value)),
        ],
{
    push_field_text(
        out,
        prefix,
        name,
        if value {
            "true"
        } else {
            "false"
        },
    );
}

/// Appends one pair for each element of a list of texts.
pub fn push_text_list(out: &mut Vec<Param>, prefix: &str, name: &str, items: &[&str])
    ensures
        pairs(final(out)@) == pairs(old(out)@) + text_list(
            field_key(prefix@, name@),
            list_view(items@),
        ),
{
    let key = make_field_key(prefix, name);
    let mut i: usize = 0;
    while i < items.len()
        invariant
            i <= items.len(),
            key@ == field_key(prefix@, name@),
            pairs(out@) == pairs(old(out)@) + text_list(key@, list_view(items@)).take(i as int),
        decreases items.len() - i,
    {
        let element_key = make_index_key(key.as_str(), i);
        push_text(out, element_key, items[i]);
        assert(pairs(out@) =~= pairs(old(out)@) + text_list(key@, list_view(items@)).take(i + 1));
        i += 1;
    }
    assert(text_list(key@, list_view(items@)).take(i as int) =~= text_list(
        key@,
        list_view(items@),
    ));
}

/// Appends the pair of an optional text field, where it is set.
pub fn push_opt_text(out: &mut Vec<Param>, prefix: &str, name: &str, value: Option<&str>)
    ensures
        pairs(final(out)@) == pairs(old(out)@) + opt_text(
            field_key(prefix@, name@),
            opt_str_view(value),
        ),
{
    match value {
        Some(v) => {
            push_field_text(out, prefix, name, v);
            assert(pairs(out@) =~= pairs(old(out)@) + opt_text(
                field_key(prefix@, name@),
                Some(v@),
            ));
        },
        None => {
            assert(pairs(out@) =~= pairs(old(out)@) + Seq::empty());
        },
    }
}

/// Appends the pair of an optional signed integer field, where it is set.
pub fn push_opt_i64(out: &mut Vec<Param>, prefix: &str, name: &str, value: Option<i64>)
    ensures
        pairs(final(out)@) == pairs(old(out)@) + opt_int(field_key(prefix@, name@), value),
{
    match value {
        Some(v) => {
            push_field_i64(out, prefix, name, v);
        },
        None => {},
    }
    assert(pairs(out@) =~= pairs(old(out)@) + opt_int(field_key(prefix@, name@), value));
}

/// Appends the pair of an optional unsigned integer field, where it is set.
pub fn push_opt_u64(out: &mut Vec<Param>, prefix: &str, name: &str, value: Option<u64>)
    ensures
        pairs(final(out)@) == pairs(old(out)@) + opt_nat(field_key(prefix@, name@), value),
{
    match value {
        Some(v) => {
            push_field_u64(out, prefix, name, v);
        },
        None => {},
    }
    assert(pairs(out@) =~= pairs(old(out)@) + opt_nat(field_key(prefix@, name@), value));
}

/// Appends the pair of an optional boolean field, where it is set.
pub fn push_opt_bool(out: &mut Vec<Param>, prefix: &str, name: &str, value: Option<bool>)
    ensures
        pairs(final(out)@) == pairs(old(out)@) + opt_bool(field_key(prefix@, name@), value),
{
    match value {
        Some(v) => {
            push_field_bool(out, prefix, name, v);
        },
        None => {},
    }
    assert(pairs(out@) =~= pairs(old(out)@) + opt_bool(field_key(prefix@, name@), value));
}

/// Appends the pairs of an optional list of texts, where it is set.
pub fn push_opt_text_list(out: &mut Vec<Param>, prefix: &str, name: &str, items: Option<&[&str]>)
    ensures
        pairs(final(out)@) == pairs(old(out)@) + opt_text_list(
            field_key(prefix@, name@),
            opt_list_view(items),
        ),
{
    match items {
        Some(v) => {
            push_text_list(out, prefix, name, v);
        },
        None => {},
    }
    assert(pairs(out@) =~= pairs(old(out)@) + opt_text_list(
        field_key(prefix@, name@),
        opt_list_view(items),
    ));
}

/// A copy of the parameters.
pub fn copy_params(params: &Vec<Param>) -> (r: Vec<Param>)
    ensures
        pairs(r@) == pairs(params@),
{
    let mut copy: Vec<Param> = Vec::new();
    let mut i: usize = 0;
    assert(pairs(copy@) =~= pairs(params@).take(0));
    while i < params.len()
        invariant
            i <= params.len(),
            pairs(copy@) == pairs(params@).take(i as int),
        decreases params.len() - i,
    {
        push_text(&mut copy, params[i].key.clone(), params[i].value.as_str());
        assert(pairs(params@)[i as int] == (params[i as int].key@, params[i as int].value@));
        assert(pairs(copy@) =~= pairs(params@).take(i + 1));
        i += 1;
    }
    assert(pairs(params@).take(i as int) =~= pairs(params@));
    copy
}

/// Whether some parameter has the key.
pub fn contains_param(params: &Vec<Param>, key: &str) -> (r: bool)
    ensures
        r == has_param(pairs(params@), key@),
{
    let mut i: usize = 0;
    while i < params.len()
        invariant
            i <= params.len(),
            forall|j: int| 0 <= j < i ==> (#[trigger] pairs(params@)[j]).0 != key@,
        decreases params.len() - i,
    {
        if str_eq(params[i].key.as_str(), key) {
            assert(pairs(params@)[i as int].0 == key@);
            return true;
        }
        i += 1;
    }
    false
}

/// Sets `key` to `value`.
pub fn set_param(params: &mut Vec<Param>, key: &str, value: &str)
    ensures
        pairs(final(params)@) == with_param(pairs(old(params)@), key@, value@),
{
    let ghost before = pairs(params@);
    let mut found = false;
    let mut i: usize = 0;
    while i < params.len()
        invariant
            i <= params.len(),
            params.len() == before.len(),
            found <==> has_param(before.take(i as int), key@),
            forall|j: int| 0 <= j < i ==> (#[trigger] pairs(params@)[j]) == replaced(
                before[j],
                key@,
                value@,
            ),
            forall|j: int| i <= j < params.len() ==> (#[trigger] pairs(params@)[j]) == before[j],
        decreases params.len() - i,
    {
        let ghost now = pairs(params@);
        proof {
            assert(before.take(i + 1).drop_last() =~= before.take(i as int));
            assert(before.take(i + 1).last() == before[i as int]);
        }
        if str_eq(params[i].key.as_str(), key) {
            assert(now[i as int].0 == key@);
            params.set(i, Param { key: key.to_owned(), value: value.to_owned() });
            found = true;
            proof {
                assert(before.take(i + 1)[i as int].0 == key@);
                assert forall|j: int| 0 <= j < params.len() && j != i implies (
                #[trigger] pairs(params@)[j]) == now[j] by {}
                assert(now[i as int] == before[i as int]);
                assert(pairs(params@)[i as int] == replaced(before[i as int], key@, value@));
            }
        } else {
            proof {
                assert(now[i as int].0 != key@);
                assert(now[i as int] == before[i as int]);
                assert(pairs(params@)[i as int] == replaced(before[i as int], key@, value@));
                if has_param(before.take(i + 1), key@) {
                    let j = choose|j: int|
                        0 <= j < before.take(i + 1).len() && (#[trigger] before.take(i + 1)[j]).0
                            == key@;
                    assert(before.take(i as int)[j].0 == key@);
                }
                if has_param(before.take(i as int), key@) {
                    let j = choose|j: int|
                        0 <= j < before.take(i as int).len() && (#[trigger] before.take(
                            i as int,
                        )[j]).0 == key@;
                    assert(before.take(i + 1)[j].0 == key@);
                }
            }
        }
        i += 1;
    }
    assert(before.take(i as int) =~= before);
    if found {
        assert(pairs(params@) =~= with_param(before, key@, value@));
    } else {
        push_text(params, key.to_owned(), value);
        assert(pairs(params@) =~= with_param(before, key@, value@));
    }
}

} // verus!
