use stripe_requests::decode::{find_member, json_i64, Decode};
use stripe_requests::deleted::{tombstone, MaybeDeleted};
use stripe_requests::deleted_product::{DeletedProduct, DeletedProductBuilder};
use stripe_requests::deleted_radar_value_list::DeletedRadarValueList;
use stripe_requests::error::{DecodeError, JsonKind};
use stripe_requests::ids::{ProductId, UsageRecordSummaryId};
use stripe_requests::json::{parse, Json, JsonNumber};
use stripe_requests::object::Object;
use stripe_requests::types::AlwaysTrue;
use stripe_requests::usage_record_summary::types::{Period, UsageRecordSummary};

fn object(members: Vec<(&str, Json)>) -> Json {
    Json::Object(members.into_iter().map(|(k, v)| (k.to_string(), v)).collect())
}

fn text(s: &str) -> Json {
    Json::String(s.to_string())
}

fn number(n: u64) -> Json {
    Json::Number(JsonNumber::U64(n))
}

fn summary_members() -> Vec<(&'static str, Json)> {
    vec![
        ("id", text("urs_1")),
        ("invoice", text("in_9")),
        ("livemode", Json::Bool(false)),
        ("object", text("usage_record_summary")),
        ("period", object(vec![("end", number(200)), ("start", number(100))])),
        ("subscription_item", text("si_7")),
        ("total_usage", number(42)),
    ]
}

fn without(members: Vec<(&'static str, Json)>, key: &str) -> Vec<(&'static str, Json)> {
    members.into_iter().filter(|(k, _)| *k != key).collect()
}

#[test]
fn deleted_product_decodes() {
    let json = parse(r#"{"deleted": true, "id": "prod_123"}"#).unwrap();
    let out = DeletedProduct::decode(&json).unwrap();
    assert_eq!(out.id, ProductId::new("prod_123"));
    assert_eq!(out.id.as_str(), "prod_123");
    assert_eq!(out.id().as_str(), "prod_123");
    assert_eq!(out.cursor(), "prod_123");
    assert_eq!(out.into_id(), ProductId::new("prod_123"));
}

#[test]
fn deleted_product_without_the_flag() {
    let json = parse(r#"{"id": "prod_123"}"#).unwrap();
    assert_eq!(
        DeletedProduct::decode(&json),
        Err(DecodeError::MissingField { record: "DeletedProduct", field: "deleted" })
    );
    assert_eq!(DeletedProduct::from_value(json), None);
}

#[test]
fn deleted_product_without_the_id() {
    let json = object(vec![("deleted", Json::Bool(true))]);
    assert_eq!(
        DeletedProduct::decode(&json),
        Err(DecodeError::MissingField { record: "DeletedProduct", field: "id" })
    );
}

#[test]
fn deleted_product_with_nothing_names_the_first_field() {
    assert_eq!(
        DeletedProduct::decode(&object(vec![])),
        Err(DecodeError::MissingField { record: "DeletedProduct", field: "deleted" })
    );
}

#[test]
fn deleted_product_with_a_false_flag() {
    let json = object(vec![("deleted", Json::Bool(false)), ("id", text("prod_1"))]);
    assert_eq!(
        DeletedProduct::decode(&json),
        Err(DecodeError::TypeMismatch {
            record: "DeletedProduct",
            field: "deleted",
            expected: JsonKind::True,
            actual: JsonKind::Bool,
        })
    );
}

#[test]
fn deleted_product_with_a_number_for_the_id() {
    let json = object(vec![("deleted", Json::Bool(true)), ("id", number(7))]);
    assert_eq!(
        DeletedProduct::decode(&json),
        Err(DecodeError::TypeMismatch {
            record: "DeletedProduct",
            field: "id",
            expected: JsonKind::String,
            actual: JsonKind::Integer,
        })
    );
}

#[test]
fn deleted_product_from_a_value_that_is_no_object() {
    assert_eq!(
        DeletedProduct::decode(&Json::Array(vec![])),
        Err(DecodeError::TypeMismatch {
            record: "DeletedProduct",
            field: "",
            expected: JsonKind::Object,
            actual: JsonKind::Array,
        })
    );
}

#[test]
fn unknown_keys_are_ignored() {
    let plain = object(vec![("deleted", Json::Bool(true)), ("id", text("prod_1"))]);
    let extended = object(vec![
        ("object", text("product")),
        ("deleted", Json::Bool(true)),
        ("livemode", Json::Bool(false)),
        ("id", text("prod_1")),
        ("metadata", object(vec![("deleted", Json::Bool(false))])),
    ]);
    assert_eq!(DeletedProduct::decode(&extended), DeletedProduct::decode(&plain));
    assert!(DeletedProduct::decode(&extended).is_ok());

    let members = summary_members();
    let mut more = members.clone();
    more.insert(0, ("created", number(5)));
    more.push(("currency", text("usd")));
    assert_eq!(
        UsageRecordSummary::decode(&object(more)),
        UsageRecordSummary::decode(&object(members))
    );
}

#[test]
fn a_later_member_shadows_an_earlier_one() {
    let json = object(vec![
        ("id", number(1)),
        ("deleted", Json::Bool(true)),
        ("id", text("prod_2")),
    ]);
    assert_eq!(DeletedProduct::decode(&json).unwrap().id.as_str(), "prod_2");
    let members = match &json {
        Json::Object(m) => m,
        _ => unreachable!(),
    };
    assert_eq!(find_member(members, "id"), Some(&text("prod_2")));
    assert_eq!(find_member(members, "object"), None);
}

#[test]
fn from_value_feeds_the_builder() {
    let json = object(vec![
        ("object", text("product")),
        ("deleted", Json::Bool(true)),
        ("id", text("prod_1")),
    ]);
    let out = DeletedProduct::from_value(json.clone()).unwrap();
    assert_eq!(out.id.as_str(), "prod_1");
    assert_eq!(DeletedProduct::decode(&json), Ok(out));
    assert_eq!(DeletedProduct::from_value(Json::Null), None);
    assert_eq!(DeletedProduct::from_value(object(vec![])), None);
    assert_eq!(DeletedProduct::from_value(object(vec![("id", text("prod_1"))])), None);
    let bad = object(vec![("deleted", Json::Bool(true)), ("id", number(1))]);
    assert_eq!(DeletedProduct::from_value(bad), None);
}

#[test]
fn from_value_refuses_a_bad_member_even_where_it_is_shadowed() {
    let json = object(vec![
        ("id", number(1)),
        ("deleted", Json::Bool(true)),
        ("id", text("prod_2")),
    ]);
    assert_eq!(DeletedProduct::from_value(json.clone()), None);
    assert_eq!(DeletedProduct::decode(&json).unwrap().id.as_str(), "prod_2");
    let json = object(vec![
        ("id", text("prod_1")),
        ("deleted", Json::Bool(true)),
        ("id", text("prod_2")),
    ]);
    assert_eq!(DeletedProduct::from_value(json).unwrap().id.as_str(), "prod_2");
}

#[test]
fn deleted_product_is_written_with_its_kind() {
    let out = DeletedProduct::from_value(object(vec![
        ("deleted", Json::Bool(true)),
        ("id", text("prod_1")),
    ]))
    .unwrap();
    let json = out.to_json();
    assert_eq!(
        json,
        object(vec![
            ("deleted", Json::Bool(true)),
            ("id", text("prod_1")),
            ("object", text("product")),
        ])
    );
    assert_eq!(DeletedProduct::decode(&json), Ok(out));
}

#[test]
fn deleted_radar_value_list_decodes_and_is_written() {
    let json = parse(r#"{"id": "rsl_1", "object": "radar.value_list", "deleted": true}"#).unwrap();
    let out = DeletedRadarValueList::decode(&json).unwrap();
    assert_eq!(out.id.as_str(), "rsl_1");
    assert_eq!(
        out.to_json(),
        object(vec![
            ("deleted", Json::Bool(true)),
            ("id", text("rsl_1")),
            ("object", text("radar.value_list")),
        ])
    );
    assert_eq!(
        DeletedRadarValueList::decode(&object(vec![("id", text("rsl_1"))])),
        Err(DecodeError::MissingField { record: "DeletedRadarValueList", field: "deleted" })
    );
}

#[test]
fn builder_is_filled_member_by_member() {
    let mut b = DeletedProductBuilder::deser_default();
    assert_eq!(b, DeletedProductBuilder { deleted: None, id: None });
    assert_eq!(b.take_out(), None);
    assert_eq!(b.key("object", &text("product")), Ok(()));
    assert_eq!(b, DeletedProductBuilder { deleted: None, id: None });
    assert_eq!(b.key("id", &text("prod_1")), Ok(()));
    assert_eq!(b.take_out(), None);
    assert_eq!(b.id, Some(ProductId::new("prod_1")));
    assert_eq!(b.key("deleted", &Json::Bool(true)), Ok(()));
    assert_eq!(b.deleted, Some(AlwaysTrue));
    let out = b.take_out().unwrap();
    assert_eq!(out.id.as_str(), "prod_1");
    assert_eq!(b, DeletedProductBuilder { deleted: Some(AlwaysTrue), id: None });
    assert_eq!(b.take_out(), None);
}

#[test]
fn builder_refuses_a_value_of_the_wrong_shape() {
    let mut b = DeletedProductBuilder::deser_default();
    assert_eq!(
        b.key("deleted", &text("true")),
        Err(DecodeError::TypeMismatch {
            record: "DeletedProduct",
            field: "deleted",
            expected: JsonKind::True,
            actual: JsonKind::String,
        })
    );
    assert_eq!(
        b.key("id", &Json::Null),
        Err(DecodeError::TypeMismatch {
            record: "DeletedProduct",
            field: "id",
            expected: JsonKind::String,
            actual: JsonKind::Null,
        })
    );
    assert_eq!(b, DeletedProductBuilder { deleted: None, id: None });
}

#[test]
fn usage_record_summary_decodes() {
    let text = r#"{
        "id": "urs_1",
        "object": "usage_record_summary",
        "invoice": "in_9",
        "livemode": false,
        "period": {"start": 100, "end": 200},
        "subscription_item": "si_7",
        "total_usage": 42
    }"#;
    let out = UsageRecordSummary::decode(&parse(text).unwrap()).unwrap();
    assert_eq!(
        out,
        UsageRecordSummary {
            id: UsageRecordSummaryId::new("urs_1"),
            invoice: Some("in_9".to_string()),
            livemode: false,
            period: Period { end: Some(200), start: Some(100) },
            subscription_item: "si_7".to_string(),
            total_usage: 42,
        }
    );
    assert_eq!(out.cursor(), "urs_1");
}

#[test]
fn optional_fields_may_be_absent_or_null() {
    let absent = without(summary_members(), "invoice");
    assert_eq!(UsageRecordSummary::decode(&object(absent)).unwrap().invoice, None);
    let mut null = without(summary_members(), "invoice");
    null.push(("invoice", Json::Null));
    assert_eq!(UsageRecordSummary::decode(&object(null)).unwrap().invoice, None);
    let mut open = without(summary_members(), "period");
    open.push(("period", object(vec![("start", Json::Null)])));
    assert_eq!(
        UsageRecordSummary::decode(&object(open)).unwrap().period,
        Period { end: None, start: None }
    );
}

#[test]
fn each_required_field_is_missed_by_name() {
    for field in ["id", "livemode", "period", "subscription_item", "total_usage"] {
        let members = without(summary_members(), field);
        assert_eq!(
            UsageRecordSummary::decode(&object(members)),
            Err(DecodeError::MissingField { record: "UsageRecordSummary", field })
        );
    }
}

#[test]
fn the_first_field_that_fails_decides() {
    let mut members = without(without(summary_members(), "total_usage"), "livemode");
    members.push(("livemode", text("no")));
    assert_eq!(
        UsageRecordSummary::decode(&object(members)),
        Err(DecodeError::TypeMismatch {
            record: "UsageRecordSummary",
            field: "livemode",
            expected: JsonKind::Bool,
            actual: JsonKind::String,
        })
    );
}

#[test]
fn a_nested_record_reports_its_own_fields() {
    let mut members = without(summary_members(), "period");
    members.push(("period", object(vec![("end", text("soon"))])));
    assert_eq!(
        UsageRecordSummary::decode(&object(members)),
        Err(DecodeError::TypeMismatch {
            record: "Period",
            field: "end",
            expected: JsonKind::Integer,
            actual: JsonKind::String,
        })
    );
    let mut members = without(summary_members(), "period");
    members.push(("period", number(3)));
    assert_eq!(
        UsageRecordSummary::decode(&object(members)),
        Err(DecodeError::TypeMismatch {
            record: "Period",
            field: "",
            expected: JsonKind::Object,
            actual: JsonKind::Integer,
        })
    );
}

#[test]
fn integers_are_read_in_either_sign() {
    let mut members = without(summary_members(), "total_usage");
    members.push(("total_usage", Json::Number(JsonNumber::I64(-5))));
    assert_eq!(UsageRecordSummary::decode(&object(members)).unwrap().total_usage, -5);
    assert_eq!(json_i64(&Json::Number(JsonNumber::U64(9223372036854775807))), Some(i64::MAX));
    assert_eq!(json_i64(&Json::Number(JsonNumber::U64(9223372036854775808))), None);
    assert_eq!(json_i64(&Json::Number(JsonNumber::I64(i64::MIN))), Some(i64::MIN));
    assert_eq!(json_i64(&Json::Number(JsonNumber::Float(0))), None);
    assert_eq!(json_i64(&text("1")), None);
}

#[test]
fn a_fraction_is_no_integer() {
    let text = r#"{"id": "urs_1", "livemode": true, "period": {}, "subscription_item": "si_7",
        "total_usage": 1.5}"#;
    assert_eq!(
        UsageRecordSummary::decode(&parse(text).unwrap()),
        Err(DecodeError::TypeMismatch {
            record: "UsageRecordSummary",
            field: "total_usage",
            expected: JsonKind::Integer,
            actual: JsonKind::Float,
        })
    );
}

#[test]
fn the_flag_selects_the_variant() {
    type Either = MaybeDeleted<UsageRecordSummary, DeletedProduct>;
    let gone = object(vec![("id", text("prod_1")), ("deleted", Json::Bool(true))]);
    assert!(tombstone(&gone));
    match Either::decode(&gone) {
        Ok(MaybeDeleted::Deleted(d)) => assert_eq!(d.id.as_str(), "prod_1"),
        other => panic!("{:?}", other),
    }
    let live = object(summary_members());
    assert!(!tombstone(&live));
    match Either::decode(&live) {
        Ok(MaybeDeleted::Live(v)) => assert_eq!(v.id.as_str(), "urs_1"),
        other => panic!("{:?}", other),
    }
}

#[test]
fn the_flag_decides_before_the_shape() {
    type Either = MaybeDeleted<UsageRecordSummary, DeletedProduct>;
    // a tombstone without an id is a broken tombstone, not a live record
    let gone = object(vec![("deleted", Json::Bool(true))]);
    assert_eq!(
        Either::decode(&gone),
        Err(DecodeError::MissingField { record: "DeletedProduct", field: "id" })
    );
    // a false flag is no tombstone
    let mut members = summary_members();
    members.push(("deleted", Json::Bool(false)));
    assert!(!tombstone(&object(members.clone())));
    assert!(matches!(Either::decode(&object(members)), Ok(MaybeDeleted::Live(_))));
    // neither is a flag that is no boolean, nor a value that is no object
    assert!(!tombstone(&object(vec![("deleted", text("true"))])));
    assert!(!tombstone(&Json::Bool(true)));
    assert_eq!(
        Either::decode(&Json::Null),
        Err(DecodeError::TypeMismatch {
            record: "UsageRecordSummary",
            field: "",
            expected: JsonKind::Object,
            actual: JsonKind::Null,
        })
    );
}
