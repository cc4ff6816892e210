use stripe_requests::params::{
    contains_param, copy_params, make_field_key, make_index_key, push_field_bool, push_field_i64,
    push_field_text, push_field_u64, push_opt_bool, push_opt_i64, push_opt_text,
    push_opt_text_list, push_opt_u64, push_text_list, set_param, Param,
};
use stripe_requests::text::{push_decimal, push_signed_decimal, str_eq};

fn pair(key: &str, value: &str) -> Param {
    Param { key: key.to_string(), value: value.to_string() }
}

fn unsigned(n: u64) -> String {
    let mut out = String::new();
    push_decimal(&mut out, n);
    out
}

fn signed(n: i64) -> String {
    let mut out = String::new();
    push_signed_decimal(&mut out, n);
    out
}

#[test]
fn decimal_forms() {
    assert_eq!(unsigned(0), "0");
    assert_eq!(unsigned(7), "7");
    assert_eq!(unsigned(10), "10");
    assert_eq!(unsigned(1234567890), "1234567890");
    assert_eq!(unsigned(u64::MAX), "18446744073709551615");
    assert_eq!(signed(0), "0");
    assert_eq!(signed(-1), "-1");
    assert_eq!(signed(1700000000), "1700000000");
    assert_eq!(signed(i64::MAX), "9223372036854775807");
    assert_eq!(signed(i64::MIN), "-9223372036854775808");
    let mut out = "x=".to_string();
    push_decimal(&mut out, 42);
    push_signed_decimal(&mut out, -42);
    assert_eq!(out, "x=42-42");
}

#[test]
fn string_equality() {
    assert!(str_eq("", ""));
    assert!(str_eq("limit", "limit"));
    assert!(!str_eq("limit", "limits"));
    assert!(!str_eq("limit", "Limit"));
    assert!(str_eq("caf\u{e9}", "caf\u{e9}"));
    assert!(!str_eq("caf\u{e9}", "cafe"));
}

#[test]
fn keys_of_fields_and_elements() {
    assert_eq!(make_field_key("", "limit"), "limit");
    assert_eq!(make_field_key("price_data", "currency"), "price_data[currency]");
    assert_eq!(
        make_field_key("price_data[recurring]", "interval"),
        "price_data[recurring][interval]"
    );
    assert_eq!(make_index_key("expand", 0), "expand[0]");
    assert_eq!(make_index_key("expand", 12), "expand[12]");
}

#[test]
fn pushing_single_fields() {
    let mut out = Vec::new();
    push_field_text(&mut out, "", "plan", "gold");
    push_field_i64(&mut out, "thresholds", "usage_gte", -3);
    push_field_u64(&mut out, "", "quantity", 20);
    push_field_bool(&mut out, "", "clear_usage", true);
    push_field_bool(&mut out, "", "off_session", false);
    assert_eq!(
        out,
        vec![
            pair("plan", "gold"),
            pair("thresholds[usage_gte]", "-3"),
            pair("quantity", "20"),
            pair("clear_usage", "true"),
            pair("off_session", "false"),
        ]
    );
}

#[test]
fn pushing_optional_fields() {
    let mut out = Vec::new();
    push_opt_text(&mut out, "", "plan", None);
    push_opt_i64(&mut out, "", "limit", None);
    push_opt_u64(&mut out, "", "quantity", None);
    push_opt_bool(&mut out, "", "clear_usage", None);
    push_opt_text_list(&mut out, "", "expand", None);
    assert_eq!(out, vec![]);
    push_opt_text(&mut out, "", "plan", Some("gold"));
    push_opt_i64(&mut out, "", "limit", Some(3));
    push_opt_u64(&mut out, "", "quantity", Some(0));
    push_opt_bool(&mut out, "", "clear_usage", Some(false));
    push_opt_text_list(&mut out, "", "expand", Some(&["a", "b"]));
    assert_eq!(
        out,
        vec![
            pair("plan", "gold"),
            pair("limit", "3"),
            pair("quantity", "0"),
            pair("clear_usage", "false"),
            pair("expand[0]", "a"),
            pair("expand[1]", "b"),
        ]
    );
}

#[test]
fn pushing_a_list() {
    let mut out = vec![pair("x", "y")];
    push_text_list(&mut out, "", "tax_rates", &[]);
    assert_eq!(out, vec![pair("x", "y")]);
    let items: Vec<String> = (0..11).map(|i| format!("txr_{}", i)).collect();
    let items: Vec<&str> = items.iter().map(|s| s.as_str()).collect();
    push_text_list(&mut out, "item", "tax_rates", &items);
    assert_eq!(out.len(), 12);
    assert_eq!(out[1], pair("item[tax_rates][0]", "txr_0"));
    assert_eq!(out[11], pair("item[tax_rates][10]", "txr_10"));
}

#[test]
fn setting_a_parameter_adds_or_replaces() {
    let mut params = vec![pair("limit", "3")];
    assert!(!contains_param(&params, "starting_after"));
    set_param(&mut params, "starting_after", "a");
    assert_eq!(params, vec![pair("limit", "3"), pair("starting_after", "a")]);
    assert!(contains_param(&params, "starting_after"));
    set_param(&mut params, "starting_after", "b");
    assert_eq!(params, vec![pair("limit", "3"), pair("starting_after", "b")]);
    set_param(&mut params, "limit", "5");
    assert_eq!(params, vec![pair("limit", "5"), pair("starting_after", "b")]);
}

#[test]
fn setting_a_parameter_replaces_every_occurrence() {
    let mut params = vec![pair("k", "1"), pair("x", "2"), pair("k", "3")];
    set_param(&mut params, "k", "9");
    assert_eq!(params, vec![pair("k", "9"), pair("x", "2"), pair("k", "9")]);
    let mut none: Vec<Param> = vec![];
    set_param(&mut none, "k", "v");
    assert_eq!(none, vec![pair("k", "v")]);
}

#[test]
fn copying_parameters() {
    let params = vec![pair("a", "1"), pair("b", "2")];
    assert_eq!(copy_params(&params), params);
    assert_eq!(copy_params(&vec![]), vec![]);
}
