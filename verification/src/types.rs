//! Value types shared by the requests.

use crate::params::{
    field_key, has_param, lemma_field_key_under, lemma_has_param_concat, lemma_has_param_one,
    lemma_has_param_opt_int, make_field_key, opt_int, pairs, push_field_i64, push_field_text,
    push_opt_i64, under, Pairs, Param,
};
use crate::text::{signed_decimal, str_eq};
use vstd::prelude::*;

verus! {

/// Seconds since the Unix epoch.
pub type Timestamp = i64;

/// A marker that is only ever `true` on the wire.
#[derive(Copy, Clone, Debug, PartialEq, Eq, Structural)]
pub struct AlwaysTrue;

/// Whether a text is a currency code: three lowercase ASCII letters.
pub open spec fn is_currency_code(s: Seq<char>) -> bool {
    &&& s.len() == 3
    &&& forall|i: int| 0 <= i < 3 ==> 'a' <= #[trigger] s[i] <= 'z'
}

/// A three-letter ISO currency code, in lowercase.
#[derive(Debug, PartialEq, Eq)]
pub struct Currency {
    code: String,
}

impl View for Currency {
    type V = Seq<char>;

    closed spec fn view(&self) -> Seq<char> {
        self.code@
    }
}

impl Clone for Currency {
    fn clone(&self) -> (r: Self)
        ensures
            r@ == self@,
    {
        proof {
            use_type_invariant(self);
        }
        Currency { code: self.code.clone() }
    }
}

impl Currency {
    #[verifier::type_invariant]
    spec fn well_formed(self) -> bool {
        is_currency_code(self.code@)
    }

    /// The currency with the given code; `None` where the text is no
    /// currency code.
    pub fn from_code(code: &str) -> (r: Option<Self>)
        ensures
            r is Some <==> is_currency_code(code@),
            r matches Some(c) ==> c@ == code@,
    {
        if code.unicode_len() != 3 {
            return None;
        }
        let mut i: usize = 0;
        while i < 3
            invariant
                i <= 3,
                code@.len() == 3,
                forall|j: int| 0 <= j < i ==> 'a' <= #[trigger] code@[j] <= 'z',
            decreases 3 - i,
        {
            let c = code.get_char(i);
            if c < 'a' || c > 'z' {
                return None;
            }
            i += 1;
        }
        Some(Currency { code: code.to_owned() })
    }

    /// The code.
    pub fn as_str(&self) -> (r: &str)
        ensures
            r@ == self@,
            is_currency_code(r@),
    {
        proof {
            use_type_invariant(self);
        }
        self.code.as_str()
    }
}

/// Bounds on a timestamp; every bound that is set must hold.
#[derive(Copy, Clone, Debug, PartialEq, Eq, Structural)]
pub struct RangeBoundsTs {
    pub gt: Option<Timestamp>,
    pub gte: Option<Timestamp>,
    pub lt: Option<Timestamp>,
    pub lte: Option<Timestamp>,
}

/// A filter on a timestamp: one exact value, or bounds.
#[derive(Copy, Clone, Debug, PartialEq, Eq, Structural)]
pub enum RangeQueryTs {
    Exact(Timestamp),
    Bounds(RangeBoundsTs),
}

impl RangeBoundsTs {
    /// No bound at all.
    pub fn new() -> (r: Self)
        ensures
            r == (RangeBoundsTs { gt: None, gte: None, lt: None, lte: None }),
    {
        RangeBoundsTs { gt: None, gte: None, lt: None, lte: None }
    }

    /// One pair for each bound that is set, below `key`.
    pub open spec fn spec_params(self, key: Seq<char>) -> Pairs {
        opt_int(field_key(key, "gt"@), self.gt) + opt_int(field_key(key, "gte"@), self.gte)
            + opt_int(field_key(key, "lt"@), self.lt) + opt_int(field_key(key, "lte"@), self.lte)
    }
}

impl RangeQueryTs {
    /// Exactly `value`.
    pub fn eq(value: Timestamp) -> (r: Self)
        ensures
            r == RangeQueryTs::Exact(value),
    {
        RangeQueryTs::Exact(value)
    }

    /// After `value`.
    pub fn gt(value: Timestamp) -> (r: Self)
        ensures
            r == RangeQueryTs::Bounds(
                RangeBoundsTs { gt: Some(value), gte: None, lt: None, lte: None },
            ),
    {
        RangeQueryTs::Bounds(RangeBoundsTs { gt: Some(value), gte: None, lt: None, lte: None })
    }

    /// At or after `value`.
    pub fn gte(value: Timestamp) -> (r: Self)
        ensures
            r == RangeQueryTs::Bounds(
                RangeBoundsTs { gt: None, gte: Some(value), lt: None, lte: None },
            ),
    {
        RangeQueryTs::Bounds(RangeBoundsTs { gt: None, gte: Some(value), lt: None, lte: None })
    }

    /// Before `value`.
    pub fn lt(value: Timestamp) -> (r: Self)
        ensures
            r == RangeQueryTs::Bounds(
                RangeBoundsTs { gt: None, gte: None, lt: Some(value), lte: None },
            ),
    {
        RangeQueryTs::Bounds(RangeBoundsTs { gt: None, gte: None, lt: Some(value), lte: None })
    }

    /// At or before `value`.
    pub fn lte(value: Timestamp) -> (r: Self)
        ensures
            r == RangeQueryTs::Bounds(
                RangeBoundsTs { gt: None, gte: None, lt: None, lte: Some(value) },
            ),
    {
        RangeQueryTs::Bounds(RangeBoundsTs { gt: None, gte: None, lt: None, lte: Some(value) })
    }

    /// The parameters of the filter under `key`: the value itself, or one
    /// pair for each bound.
    pub open spec fn spec_params(self, key: Seq<char>) -> Pairs {
        match self {
            RangeQueryTs::Exact(v) => seq![(key, signed_decimal(v as int))],
            RangeQueryTs::Bounds(b) => b.spec_params(key),
        }
    }

    /// Every key of the filter is `key` itself or below it.
    pub proof fn lemma_keys(self, key: Seq<char>, k: Seq<char>)
        requires
            key.len() > 0,
            has_param(self.spec_params(key), k),
        ensures
            k == key || under(k, key),
    {
        match self {
            RangeQueryTs::Exact(v) => {
                lemma_has_param_one(key, signed_decimal(v as int), k);
            },
            RangeQueryTs::Bounds(b) => {
                let gt = opt_int(field_key(key, "gt"@), b.gt);
                let gte = opt_int(field_key(key, "gte"@), b.gte);
                let lt = opt_int(field_key(key, "lt"@), b.lt);
                let lte = opt_int(field_key(key, "lte"@), b.lte);
                lemma_has_param_concat(gt + gte + lt, lte, k);
                lemma_has_param_concat(gt + gte, lt, k);
                lemma_has_param_concat(gt, gte, k);
                lemma_has_param_opt_int(field_key(key, "gt"@), b.gt, k);
                lemma_has_param_opt_int(field_key(key, "gte"@), b.gte, k);
                lemma_has_param_opt_int(field_key(key, "lt"@), b.lt, k);
                lemma_has_param_opt_int(field_key(key, "lte"@), b.lte, k);
                lemma_field_key_under(key, "gt"@);
                lemma_field_key_under(key, "gte"@);
                lemma_field_key_under(key, "lt"@);
                lemma_field_key_under(key, "lte"@);
            },
        }
    }

    /// Appends the parameters of the filter that is the field `name` of
    /// the record keyed by `prefix`.
    pub fn push_params(&self, out: &mut Vec<Param>, prefix: &str, name: &str)
        ensures
            pairs(final(out)@) == pairs(old(out)@) + self.spec_params(field_key(prefix@, name@)),
    {
        match self {
            RangeQueryTs::Exact(v) => {
                push_field_i64(out, prefix, name, *v);
                assert(pairs(out@) =~= pairs(old(out)@) + self.spec_params(
                    field_key(prefix@, name@),
                ));
            },
            RangeQueryTs::Bounds(b) => {
                let key = make_field_key(prefix, name);
                push_opt_i64(out, key.as_str(), "gt", b.gt);
                push_opt_i64(out, key.as_str(), "gte", b.gte);
                push_opt_i64(out, key.as_str(), "lt", b.lt);
                push_opt_i64(out, key.as_str(), "lte", b.lte);
                assert(pairs(out@) =~= pairs(old(out)@) + self.spec_params(
                    field_key(prefix@, name@),
                ));
            },
        }
    }
}

/// Whether no key occurs twice among the entries.
pub open spec fn keys_distinct(entries: Pairs) -> bool {
    forall|i: int, j: int|
        0 <= i < j < entries.len() ==> (#[trigger] entries[i]).0 != (#[trigger] entries[j]).0
}

/// Whether some entry has the key.
pub open spec fn has_key(entries: Pairs, key: Seq<char>) -> bool {
    exists|i: int| 0 <= i < entries.len() && (#[trigger] entries[i]).0 == key
}

/// The position of an entry with the key, where there is one.
pub open spec fn key_position(entries: Pairs, key: Seq<char>) -> int {
    choose|i: int| 0 <= i < entries.len() && (#[trigger] entries[i]).0 == key
}

/// The entries after `key` is set to `value`: the entry of that key
/// changes in place, a new key goes to the end.
pub open spec fn with_entry(
    entries: Pairs,
    key: Seq<char>,
    value: Seq<char>,
) -> Pairs {
    if has_key(entries, key) {
        entries.update(key_position(entries, key), (key, value))
    } else {
        entries.push((key, value))
    }
}

/// The parameters of metadata under `key`: one pair for each entry, keyed
/// by the entry's own key.
pub open spec fn metadata_params(key: Seq<char>, entries: Pairs) -> Pairs {
    Seq::new(entries.len(), |i: int| (field_key(key, entries[i].0), entries[i].1))
}

/// The contents of a list of entries.
pub open spec fn entry_pairs(entries: Seq<(String, String)>) -> Pairs {
    entries.map_values(|e: (String, String)| (e.0@, e.1@))
}

/// Key/value pairs to attach to an object, in the order in which their
/// keys were first set. No key occurs twice.
#[derive(Debug, PartialEq, Eq)]
pub struct Metadata {
    entries: Vec<(String, String)>,
}

impl View for Metadata {
    type V = Pairs;

    closed spec fn view(&self) -> Pairs {
        entry_pairs(self.entries@)
    }
}

impl Clone for Metadata {
    fn clone(&self) -> (r: Self)
        ensures
            r@ == self@,
    {
        proof {
            use_type_invariant(self);
        }
        let mut entries: Vec<(String, String)> = Vec::new();
        let mut i: usize = 0;
        while i < self.entries.len()
            invariant
                i <= self.entries.len(),
                keys_distinct(self@),
                entry_pairs(entries@) == self@.take(i as int),
            decreases self.entries.len() - i,
        {
            let ghost before = entries@;
            entries.push((self.entries[i].0.clone(), self.entries[i].1.clone()));
            proof {
                assert(entry_pairs(before.push(entries@.last())) =~= entry_pairs(before).push(
                    self@[i as int],
                ));
                assert(self@.take(i as int).push(self@[i as int]) =~= self@.take(i + 1));
            }
            i += 1;
        }
        assert(self@.take(i as int) =~= self@);
        Metadata { entries }
    }
}

impl Metadata {
    #[verifier::type_invariant]
    spec fn well_formed(self) -> bool {
        keys_distinct(self@)
    }

    /// No entries.
    pub fn new() -> (r: Self)
        ensures
            r@ == Pairs::empty(),
    {
        let r = Metadata { entries: Vec::new() };
        assert(r@ =~= Pairs::empty());
        r
    }

    /// The number of entries.
    pub fn len(&self) -> (r: usize)
        ensures
            r == self@.len(),
            keys_distinct(self@),
    {
        proof {
            use_type_invariant(self);
        }
        self.entries.len()
    }

    /// The value of a key, if it is set.
    pub fn get(&self, key: &str) -> (r: Option<&str>)
        ensures
            match r {
                Some(v) => has_key(self@, key@) && v@ == self@[key_position(self@, key@)].1,
                None => !has_key(self@, key@),
            },
    {
        proof {
            use_type_invariant(self);
        }
        let mut i: usize = 0;
        while i < self.entries.len()
            invariant
                i <= self.entries.len(),
                keys_distinct(self@),
                forall|j: int| 0 <= j < i ==> (#[trigger] self@[j]).0 != key@,
            decreases self.entries.len() - i,
        {
            if str_eq(self.entries[i].0.as_str(), key) {
                assert(self@[i as int].0 == key@);
                return Some(self.entries[i].1.as_str());
            }
            i += 1;
        }
        None
    }

    /// The same metadata with `key` set to `value`.
    pub fn with(self, key: &str, value: &str) -> (r: Self)
        ensures
            r@ == with_entry(self@, key@, value@),
            keys_distinct(r@),
    {
        proof {
            use_type_invariant(&self);
        }
        let ghost before = self@;
        let mut entries = self.entries;
        let mut i: usize = 0;
        while i < entries.len()
            invariant
                i <= entries.len(),
                before == entry_pairs(entries@),
                before == self@,
                keys_distinct(before),
                forall|j: int| 0 <= j < i ==> (#[trigger] before[j]).0 != key@,
            decreases entries.len() - i,
        {
            if str_eq(entries[i].0.as_str(), key) {
                entries.set(i, (key.to_owned(), value.to_owned()));
                proof {
                    let after = entry_pairs(entries@);
                    assert(before[i as int].0 == key@);
                    assert(after =~= before.update(i as int, (key@, value@)));
                    assert(keys_distinct(after)) by {
                        assert forall|a: int, b: int| 0 <= a < b < after.len() implies (
                        #[trigger] after[a]).0 != (#[trigger] after[b]).0 by {
                            assert(before[a].0 != before[b].0);
                        }
                    }
                    assert(key_position(before, key@) == i) by {
                        let p = key_position(before, key@);
                        if p < i {
                            assert(before[p].0 != before[i as int].0);
                        } else if p > i {
                            assert(before[i as int].0 != before[p].0);
                        }
                    }
                }
                return Metadata { entries };
            }
            i += 1;
        }
        entries.push((key.to_owned(), value.to_owned()));
        proof {
            let after = entry_pairs(entries@);
            assert(after =~= before.push((key@, value@)));
            assert(!has_key(before, key@));
            assert(keys_distinct(after)) by {
                assert forall|a: int, b: int| 0 <= a < b < after.len() implies (
                #[trigger] after[a]).0 != (#[trigger] after[b]).0 by {
                    if b < before.len() {
                        assert(before[a].0 != before[b].0);
                    } else {
                        assert(before[a].0 != key@);
                    }
                }
            }
        }
        Metadata { entries }
    }

    /// Appends the parameters of the metadata that is the field `name` of
    /// the record keyed by `prefix`.
    pub fn push_params(&self, out: &mut Vec<Param>, prefix: &str, name: &str)
        ensures
            pairs(final(out)@) == pairs(old(out)@) + metadata_params(
                field_key(prefix@, name@),
                self@,
            ),
    {
        let key = make_field_key(prefix, name);
        let mut i: usize = 0;
        while i < self.entries.len()
            invariant
                i <= self.entries.len(),
                key@ == field_key(prefix@, name@),
                pairs(out@) == pairs(old(out)@) + metadata_params(key@, self@).take(i as int),
            decreases self.entries.len() - i,
        {
            let entry = &self.entries[i];
            push_field_text(out, key.as_str(), entry.0.as_str(), entry.1.as_str());
            assert(pairs(out@) =~= pairs(old(out)@) + metadata_params(key@, self@).take(i + 1));
            i += 1;
        }
        assert(metadata_params(key@, self@).take(i as int) =~= metadata_params(key@, self@));
    }
}

} // verus!
