use stripe_requests::params::Param;
use stripe_requests::types::{Currency, Metadata, RangeBoundsTs, RangeQueryTs};

fn pair(key: &str, value: &str) -> Param {
    Param { key: key.to_string(), value: value.to_string() }
}

#[test]
fn currency_codes() {
    assert_eq!(Currency::from_code("usd").unwrap().as_str(), "usd");
    assert_eq!(Currency::from_code("zzz").unwrap().as_str(), "zzz");
    assert_eq!(Currency::from_code("aaa").unwrap().as_str(), "aaa");
    assert_eq!(Currency::from_code("USD"), None);
    assert_eq!(Currency::from_code("us"), None);
    assert_eq!(Currency::from_code("usdx"), None);
    assert_eq!(Currency::from_code(""), None);
    assert_eq!(Currency::from_code("u$d"), None);
    assert_eq!(Currency::from_code("us1"), None);
    assert_eq!(Currency::from_code("\u{e9}ur"), None);
    assert_eq!(Currency::from_code("`ab"), None);
    assert_eq!(Currency::from_code("ab{"), None);
    let c = Currency::from_code("eur").unwrap();
    assert_eq!(c.clone(), c);
}

#[test]
fn metadata_keeps_one_entry_for_each_key() {
    let m = Metadata::new();
    assert_eq!(m.len(), 0);
    assert_eq!(m.get("a"), None);
    let m = m.with("a", "1").with("b", "2");
    assert_eq!(m.len(), 2);
    assert_eq!(m.get("a"), Some("1"));
    assert_eq!(m.get("b"), Some("2"));
    assert_eq!(m.get("c"), None);
    let m = m.with("a", "3");
    assert_eq!(m.len(), 2);
    assert_eq!(m.get("a"), Some("3"));
    assert_eq!(m.get("b"), Some("2"));
}

#[test]
fn metadata_is_copied_entry_by_entry() {
    let m = Metadata::new().with("a", "1").with("b", "2");
    let copy = m.clone();
    assert_eq!(copy, m);
    assert_eq!(copy.len(), 2);
    assert_eq!(copy.get("b"), Some("2"));
    assert_eq!(Metadata::new().clone(), Metadata::new());
    let changed = copy.with("a", "3");
    assert_eq!(m.get("a"), Some("1"));
    assert_eq!(changed.get("a"), Some("3"));
}

#[test]
fn metadata_parameters_come_in_the_order_of_first_setting() {
    let m = Metadata::new().with("order", "7").with("note", "x").with("order", "8");
    let mut out = Vec::new();
    m.push_params(&mut out, "", "metadata");
    assert_eq!(out, vec![pair("metadata[order]", "8"), pair("metadata[note]", "x")]);
    let mut out = Vec::new();
    Metadata::new().push_params(&mut out, "", "metadata");
    assert_eq!(out, vec![]);
}

#[test]
fn range_queries() {
    assert_eq!(RangeQueryTs::eq(5), RangeQueryTs::Exact(5));
    assert_eq!(
        RangeQueryTs::gt(5),
        RangeQueryTs::Bounds(RangeBoundsTs { gt: Some(5), gte: None, lt: None, lte: None })
    );
    assert_eq!(
        RangeQueryTs::gte(5),
        RangeQueryTs::Bounds(RangeBoundsTs { gt: None, gte: Some(5), lt: None, lte: None })
    );
    assert_eq!(
        RangeQueryTs::lt(5),
        RangeQueryTs::Bounds(RangeBoundsTs { gt: None, gte: None, lt: Some(5), lte: None })
    );
    assert_eq!(
        RangeQueryTs::lte(5),
        RangeQueryTs::Bounds(RangeBoundsTs { gt: None, gte: None, lt: None, lte: Some(5) })
    );
    assert_eq!(
        RangeBoundsTs::new(),
        RangeBoundsTs { gt: None, gte: None, lt: None, lte: None }
    );
}

#[test]
fn range_query_parameters() {
    let mut out = Vec::new();
    RangeQueryTs::eq(-5).push_params(&mut out, "", "created");
    assert_eq!(out, vec![pair("created", "-5")]);
    let mut out = Vec::new();
    RangeQueryTs::Bounds(RangeBoundsTs { gt: Some(1), gte: Some(2), lt: Some(3), lte: Some(4) })
        .push_params(&mut out, "", "created");
    assert_eq!(
        out,
        vec![
            pair("created[gt]", "1"),
            pair("created[gte]", "2"),
            pair("created[lt]", "3"),
            pair("created[lte]", "4"),
        ]
    );
    let mut out = Vec::new();
    RangeQueryTs::lt(9).push_params(&mut out, "filter", "amount");
    assert_eq!(out, vec![pair("filter[amount][lt]", "9")]);
    let mut out = Vec::new();
    RangeQueryTs::Bounds(RangeBoundsTs::new()).push_params(&mut out, "", "created");
    assert_eq!(out, vec![]);
}
