use stripe_requests::cash_balance::requests::{
    RetrieveCashBalance, UpdateCashBalance, UpdateCashBalanceSettings,
    UpdateCashBalanceSettingsReconciliationMode,
};
use stripe_requests::ids::{CustomerId, SubscriptionItemId, TopupId};
use stripe_requests::params::Param;
use stripe_requests::request::{RequestBuilder, StripeMethod};
use stripe_requests::subscription_item::requests::{
    CreateSubscriptionItem, CreateSubscriptionItemBuilder, CreateSubscriptionItemPaymentBehavior,
    CreateSubscriptionItemPriceData, CreateSubscriptionItemPriceDataRecurring,
    CreateSubscriptionItemPriceDataRecurringInterval, CreateSubscriptionItemPriceDataTaxBehavior,
    CreateSubscriptionItemProrationBehavior, DeleteSubscriptionItem,
    DeleteSubscriptionItemProrationBehavior, DiscountsDataParam, ItemBillingThresholdsParam,
    ListSubscriptionItem, RetrieveSubscriptionItem, UpdateSubscriptionItem,
    UpdateSubscriptionItemPaymentBehavior, UpdateSubscriptionItemPriceData,
    UpdateSubscriptionItemPriceDataRecurring, UpdateSubscriptionItemPriceDataRecurringInterval,
    UpdateSubscriptionItemPriceDataTaxBehavior, UpdateSubscriptionItemProrationBehavior,
    UsageRecordSummariesSubscriptionItem,
};
use stripe_requests::topup::requests::{
    CancelTopup, CreateTopup, ListTopup, ListTopupStatus, RetrieveTopup, UpdateTopup,
};
use stripe_requests::types::{Currency, Metadata, RangeQueryTs};
use stripe_requests::usage_record_summary::requests::ListSubscriptionItemUsageRecordSummary;

fn pairs(items: &[(&str, &str)]) -> Vec<Param> {
    items.iter().map(|(k, v)| Param { key: k.to_string(), value: v.to_string() }).collect()
}

fn request(
    method: StripeMethod,
    path: &str,
    query: Option<&[(&str, &str)]>,
    body: Option<&[(&str, &str)]>,
) -> RequestBuilder {
    RequestBuilder {
        method,
        path: path.to_string(),
        query: query.map(pairs),
        body: body.map(pairs),
    }
}

#[test]
fn request_builder_sets_query_and_form() {
    let r = RequestBuilder::new(StripeMethod::Get, "/topups".to_string());
    assert_eq!(r, request(StripeMethod::Get, "/topups", None, None));
    let r = r.query(pairs(&[("limit", "3")]));
    assert_eq!(r, request(StripeMethod::Get, "/topups", Some(&[("limit", "3")]), None));
    let r = r.form(pairs(&[("a", "b")]));
    assert_eq!(
        r,
        request(StripeMethod::Get, "/topups", Some(&[("limit", "3")]), Some(&[("a", "b")]))
    );
}

#[test]
fn delete_subscription_item() {
    let item = SubscriptionItemId::new("si_1");
    let r = DeleteSubscriptionItem::new(&item);
    assert_eq!(r.inner.clear_usage, None);
    assert_eq!(r.inner.proration_behavior, None);
    assert_eq!(r.inner.proration_date, None);
    assert_eq!(r.build(), request(StripeMethod::Delete, "/subscription_items/si_1", None, {
        Some(&[])
    }));
    let r = r
        .clear_usage(true)
        .proration_behavior(DeleteSubscriptionItemProrationBehavior::NoProrations)
        .proration_date(1700000000);
    assert_eq!(
        r.build(),
        request(
            StripeMethod::Delete,
            "/subscription_items/si_1",
            None,
            Some(&[
                ("clear_usage", "true"),
                ("proration_behavior", "none"),
                ("proration_date", "1700000000"),
            ]),
        )
    );
}

#[test]
fn list_subscription_items() {
    let r = ListSubscriptionItem::new("sub_1");
    assert_eq!(r.inner.subscription, "sub_1");
    assert_eq!(r.inner.limit, None);
    assert_eq!(
        r.build(),
        request(StripeMethod::Get, "/subscription_items", Some(&[("subscription", "sub_1")]), None)
    );
    let r = r
        .starting_after("si_9")
        .limit(3)
        .expand(&["data.price", "data.plan"])
        .ending_before("si_1");
    assert_eq!(
        r.build(),
        request(
            StripeMethod::Get,
            "/subscription_items",
            Some(&[
                ("ending_before", "si_1"),
                ("expand[0]", "data.price"),
                ("expand[1]", "data.plan"),
                ("limit", "3"),
                ("starting_after", "si_9"),
                ("subscription", "sub_1"),
            ]),
            None,
        )
    );
}

#[test]
fn a_setter_called_twice_keeps_the_last_value() {
    let r = ListSubscriptionItem::new("sub_1").limit(3).limit(5);
    assert_eq!(r.inner.limit, Some(5));
    assert_eq!(r.inner.params(), pairs(&[("limit", "5"), ("subscription", "sub_1")]));
}

#[test]
fn retrieve_subscription_item() {
    let item = SubscriptionItemId::new("si_1");
    let r = RetrieveSubscriptionItem::new(&item);
    assert_eq!(r.build(), request(StripeMethod::Get, "/subscription_items/si_1", Some(&[]), None));
    assert_eq!(
        r.expand(&["price"]).build(),
        request(
            StripeMethod::Get,
            "/subscription_items/si_1",
            Some(&[("expand[0]", "price")]),
            None,
        )
    );
}

#[test]
fn usage_record_summaries_of_a_subscription_item() {
    let item = SubscriptionItemId::new("si_1");
    let r = UsageRecordSummariesSubscriptionItem::new(&item).limit(100).starting_after("urs_1");
    assert_eq!(r.path(), "/subscription_items/si_1/usage_record_summaries");
    assert_eq!(
        r.build(),
        request(
            StripeMethod::Get,
            "/subscription_items/si_1/usage_record_summaries",
            Some(&[("limit", "100"), ("starting_after", "urs_1")]),
            None,
        )
    );
    let r = ListSubscriptionItemUsageRecordSummary::new(&item).ending_before("urs_5").expand(&[]);
    assert_eq!(
        r.build(),
        request(
            StripeMethod::Get,
            "/subscription_items/si_1/usage_record_summaries",
            Some(&[("ending_before", "urs_5")]),
            None,
        )
    );
}

#[test]
fn create_subscription_item_with_everything() {
    let metadata = Metadata::new().with("order", "7");
    let discounts = [
        DiscountsDataParam { coupon: Some("c_1"), discount: None, promotion_code: None },
        DiscountsDataParam { coupon: None, discount: Some("d_2"), promotion_code: Some("p_2") },
    ];
    let mut recurring = CreateSubscriptionItemPriceDataRecurring::new(
        CreateSubscriptionItemPriceDataRecurringInterval::Month,
    );
    recurring.interval_count = Some(3);
    let mut price_data = CreateSubscriptionItemPriceData::new(
        Currency::from_code("usd").unwrap(),
        "prod_1",
        recurring,
    );
    price_data.tax_behavior = Some(CreateSubscriptionItemPriceDataTaxBehavior::Exclusive);
    price_data.unit_amount = Some(1999);
    price_data.unit_amount_decimal = Some("1999.5");
    let r = CreateSubscriptionItem::new("sub_1")
        .billing_thresholds(ItemBillingThresholdsParam::new(1000))
        .discounts(&discounts)
        .expand(&["price"])
        .metadata(&metadata)
        .payment_behavior(CreateSubscriptionItemPaymentBehavior::ErrorIfIncomplete)
        .plan("plan_1")
        .price("price_1")
        .price_data(price_data)
        .proration_behavior(CreateSubscriptionItemProrationBehavior::AlwaysInvoice)
        .proration_date(-1)
        .quantity(2)
        .tax_rates(&["txr_1", "txr_2"]);
    assert_eq!(
        r.build(),
        request(
            StripeMethod::Post,
            "/subscription_items",
            None,
            Some(&[
                ("billing_thresholds[usage_gte]", "1000"),
                ("discounts[0][coupon]", "c_1"),
                ("discounts[1][discount]", "d_2"),
                ("discounts[1][promotion_code]", "p_2"),
                ("expand[0]", "price"),
                ("metadata[order]", "7"),
                ("payment_behavior", "error_if_incomplete"),
                ("plan", "plan_1"),
                ("price", "price_1"),
                ("price_data[currency]", "usd"),
                ("price_data[product]", "prod_1"),
                ("price_data[recurring][interval]", "month"),
                ("price_data[recurring][interval_count]", "3"),
                ("price_data[tax_behavior]", "exclusive"),
                ("price_data[unit_amount]", "1999"),
                ("price_data[unit_amount_decimal]", "1999.5"),
                ("proration_behavior", "always_invoice"),
                ("proration_date", "-1"),
                ("quantity", "2"),
                ("subscription", "sub_1"),
                ("tax_rates[0]", "txr_1"),
                ("tax_rates[1]", "txr_2"),
            ]),
        )
    );
}

#[test]
fn create_subscription_item_with_nothing_but_the_subscription() {
    let b = CreateSubscriptionItemBuilder::new("sub_1");
    assert_eq!(b.params(), pairs(&[("subscription", "sub_1")]));
    assert!(b.billing_thresholds.is_none() && b.discounts.is_none() && b.expand.is_none());
    assert!(b.metadata.is_none() && b.payment_behavior.is_none() && b.plan.is_none());
    assert!(b.price.is_none() && b.price_data.is_none() && b.proration_behavior.is_none());
    assert!(b.proration_date.is_none() && b.quantity.is_none() && b.tax_rates.is_none());
    assert_eq!(b.subscription, "sub_1");
}

#[test]
fn price_data_starts_with_what_is_required() {
    let recurring = CreateSubscriptionItemPriceDataRecurring::new(
        CreateSubscriptionItemPriceDataRecurringInterval::Year,
    );
    assert_eq!(recurring.interval, CreateSubscriptionItemPriceDataRecurringInterval::Year);
    assert_eq!(recurring.interval_count, None);
    let p = CreateSubscriptionItemPriceData::new(Currency::from_code("eur").unwrap(), "prod_2", {
        recurring
    });
    assert_eq!(p.currency.as_str(), "eur");
    assert_eq!(p.product, "prod_2");
    assert_eq!(p.tax_behavior, None);
    assert_eq!(p.unit_amount, None);
    assert_eq!(p.unit_amount_decimal, None);
    let mut out = Vec::new();
    p.push_params(&mut out, "price_data");
    assert_eq!(
        out,
        pairs(&[
            ("price_data[currency]", "eur"),
            ("price_data[product]", "prod_2"),
            ("price_data[recurring][interval]", "year"),
        ])
    );
}

#[test]
fn update_subscription_item() {
    let item = SubscriptionItemId::new("si_3");
    let recurring = UpdateSubscriptionItemPriceDataRecurring::new(
        UpdateSubscriptionItemPriceDataRecurringInterval::Week,
    );
    let price_data =
        UpdateSubscriptionItemPriceData::new(Currency::from_code("gbp").unwrap(), "prod_1", {
            recurring
        });
    let r = UpdateSubscriptionItem::new(&item)
        .off_session(true)
        .payment_behavior(UpdateSubscriptionItemPaymentBehavior::PendingIfIncomplete)
        .price_data(price_data)
        .proration_behavior(UpdateSubscriptionItemProrationBehavior::CreateProrations)
        .quantity(0);
    assert_eq!(
        r.build(),
        request(
            StripeMethod::Post,
            "/subscription_items/si_3",
            None,
            Some(&[
                ("off_session", "true"),
                ("payment_behavior", "pending_if_incomplete"),
                ("price_data[currency]", "gbp"),
                ("price_data[product]", "prod_1"),
                ("price_data[recurring][interval]", "week"),
                ("proration_behavior", "create_prorations"),
                ("quantity", "0"),
            ]),
        )
    );
    let mut p = UpdateSubscriptionItemPriceData::new(Currency::from_code("gbp").unwrap(), "x", {
        recurring
    });
    p.tax_behavior = Some(UpdateSubscriptionItemPriceDataTaxBehavior::Unspecified);
    let r = UpdateSubscriptionItem::new(&item).price_data(p);
    assert_eq!(r.inner.params().last().unwrap().value, "unspecified");
}

#[test]
fn small_parameter_records() {
    assert_eq!(ItemBillingThresholdsParam::new(-7).usage_gte, -7);
    let d = DiscountsDataParam::new();
    assert!(d.coupon.is_none() && d.discount.is_none() && d.promotion_code.is_none());
    let d = DiscountsDataParam::default();
    assert!(d.coupon.is_none() && d.discount.is_none() && d.promotion_code.is_none());
    let mut out = Vec::new();
    DiscountsDataParam::push_list_params(&mut out, "discounts", &[]);
    assert_eq!(out, vec![]);
    let s = UpdateCashBalanceSettings::new();
    assert_eq!(s.reconciliation_mode, None);
    assert_eq!(UpdateCashBalanceSettings::default().reconciliation_mode, None);
}

#[test]
fn list_topups() {
    let r = ListTopup::new();
    assert_eq!(r.build(), request(StripeMethod::Get, "/topups", Some(&[]), None));
    assert_eq!(ListTopup::default().build(), r.build());
    let r = r
        .amount(RangeQueryTs::eq(500))
        .created(RangeQueryTs::gte(1700000000))
        .limit(1)
        .status(ListTopupStatus::Succeeded);
    assert_eq!(
        r.build(),
        request(
            StripeMethod::Get,
            "/topups",
            Some(&[
                ("amount", "500"),
                ("created[gte]", "1700000000"),
                ("limit", "1"),
                ("status", "succeeded"),
            ]),
            None,
        )
    );
}

#[test]
fn topup_requests() {
    let id = TopupId::new("tu_1");
    assert_eq!(
        RetrieveTopup::new(&id).build(),
        request(StripeMethod::Get, "/topups/tu_1", Some(&[]), None)
    );
    let metadata = Metadata::new().with("a", "1").with("b", "");
    let r = CreateTopup::new(2000, Currency::from_code("usd").unwrap())
        .description("refill")
        .metadata(&metadata)
        .source("src_1")
        .statement_descriptor("TOPUP")
        .transfer_group("g_1");
    assert_eq!(
        r.build(),
        request(
            StripeMethod::Post,
            "/topups",
            None,
            Some(&[
                ("amount", "2000"),
                ("currency", "usd"),
                ("description", "refill"),
                ("metadata[a]", "1"),
                ("metadata[b]", ""),
                ("source", "src_1"),
                ("statement_descriptor", "TOPUP"),
                ("transfer_group", "g_1"),
            ]),
        )
    );
    assert_eq!(
        UpdateTopup::new(&id).description("d").expand(&["source"]).build(),
        request(
            StripeMethod::Post,
            "/topups/tu_1",
            None,
            Some(&[("description", "d"), ("expand[0]", "source")]),
        )
    );
    assert_eq!(
        CancelTopup::new(&id).build(),
        request(StripeMethod::Post, "/topups/tu_1/cancel", None, Some(&[]))
    );
}

#[test]
fn cash_balance_requests() {
    let customer = CustomerId::new("cus_1");
    assert_eq!(
        RetrieveCashBalance::new(&customer).expand(&["settings"]).build(),
        request(
            StripeMethod::Get,
            "/customers/cus_1/cash_balance",
            Some(&[("expand[0]", "settings")]),
            None,
        )
    );
    let mut settings = UpdateCashBalanceSettings::new();
    settings.reconciliation_mode = Some(UpdateCashBalanceSettingsReconciliationMode::Manual);
    assert_eq!(
        UpdateCashBalance::new(&customer).settings(settings).build(),
        request(
            StripeMethod::Post,
            "/customers/cus_1/cash_balance",
            None,
            Some(&[("settings[reconciliation_mode]", "manual")]),
        )
    );
    assert_eq!(
        UpdateCashBalance::new(&customer).build(),
        request(StripeMethod::Post, "/customers/cus_1/cash_balance", None, Some(&[]))
    );
}
