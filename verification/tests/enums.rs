use std::str::FromStr;

use stripe_requests::decode::Decode;
use stripe_requests::error::{DecodeError, JsonKind, StripeParseError};
use stripe_requests::json::{Json, JsonNumber};

type CreateInterval =
    stripe_requests::subscription_item::requests::CreateSubscriptionItemPriceDataRecurringInterval;
type CreatePayment =
    stripe_requests::subscription_item::requests::CreateSubscriptionItemPaymentBehavior;
type CreateProration =
    stripe_requests::subscription_item::requests::CreateSubscriptionItemProrationBehavior;
type CreateTax =
    stripe_requests::subscription_item::requests::CreateSubscriptionItemPriceDataTaxBehavior;
type DeleteProration =
    stripe_requests::subscription_item::requests::DeleteSubscriptionItemProrationBehavior;
type Reconciliation =
    stripe_requests::cash_balance::requests::UpdateCashBalanceSettingsReconciliationMode;
type TopupStatus =
    stripe_requests::topup::requests::ListTopupStatus;
type UpdateInterval =
    stripe_requests::subscription_item::requests::UpdateSubscriptionItemPriceDataRecurringInterval;
type UpdatePayment =
    stripe_requests::subscription_item::requests::UpdateSubscriptionItemPaymentBehavior;
type UpdateProration =
    stripe_requests::subscription_item::requests::UpdateSubscriptionItemProrationBehavior;
type UpdateTax =
    stripe_requests::subscription_item::requests::UpdateSubscriptionItemPriceDataTaxBehavior;

#[test]
fn delete_proration_behavior_names() {
    let all = [
        (DeleteProration::AlwaysInvoice, "always_invoice"),
        (DeleteProration::CreateProrations, "create_prorations"),
        (DeleteProration::NoProrations, "none"),
    ];
    for (v, name) in all {
        assert_eq!(v.as_str(), name);
        assert_eq!(DeleteProration::from_str(name), Ok(v));
    }
    assert_eq!(DeleteProration::from_str("None"), Err(StripeParseError));
    assert_eq!(DeleteProration::from_str(""), Err(StripeParseError));
}

#[test]
fn create_payment_behavior_names() {
    let all = [
        (CreatePayment::AllowIncomplete, "allow_incomplete"),
        (CreatePayment::DefaultIncomplete, "default_incomplete"),
        (CreatePayment::ErrorIfIncomplete, "error_if_incomplete"),
        (CreatePayment::PendingIfIncomplete, "pending_if_incomplete"),
    ];
    for (v, name) in all {
        assert_eq!(v.as_str(), name);
        assert_eq!(CreatePayment::from_str(name), Ok(v));
    }
    assert_eq!(CreatePayment::from_str("allow_incomplete "), Err(StripeParseError));
    assert_eq!(CreatePayment::from_str("incomplete"), Err(StripeParseError));
}

#[test]
fn create_interval_names() {
    let all = [
        (CreateInterval::Day, "day"),
        (CreateInterval::Month, "month"),
        (CreateInterval::Week, "week"),
        (CreateInterval::Year, "year"),
    ];
    for (v, name) in all {
        assert_eq!(v.as_str(), name);
        assert_eq!(CreateInterval::from_str(name), Ok(v));
    }
    assert_eq!(CreateInterval::from_str("Day"), Err(StripeParseError));
    assert_eq!(CreateInterval::from_str("days"), Err(StripeParseError));
}

#[test]
fn create_tax_behavior_names() {
    let all = [
        (CreateTax::Exclusive, "exclusive"),
        (CreateTax::Inclusive, "inclusive"),
        (CreateTax::Unspecified, "unspecified"),
    ];
    for (v, name) in all {
        assert_eq!(v.as_str(), name);
        assert_eq!(CreateTax::from_str(name), Ok(v));
    }
    assert_eq!(CreateTax::from_str("xclusive"), Err(StripeParseError));
    assert_eq!(CreateTax::from_str("exclusive\n"), Err(StripeParseError));
}

#[test]
fn create_proration_behavior_names() {
    let all = [
        (CreateProration::AlwaysInvoice, "always_invoice"),
        (CreateProration::CreateProrations, "create_prorations"),
        (CreateProration::NoProrations, "none"),
    ];
    for (v, name) in all {
        assert_eq!(v.as_str(), name);
        assert_eq!(CreateProration::from_str(name), Ok(v));
    }
    assert_eq!(CreateProration::from_str("no_prorations"), Err(StripeParseError));
}

#[test]
fn update_payment_behavior_names() {
    let all = [
        (UpdatePayment::AllowIncomplete, "allow_incomplete"),
        (UpdatePayment::DefaultIncomplete, "default_incomplete"),
        (UpdatePayment::ErrorIfIncomplete, "error_if_incomplete"),
        (UpdatePayment::PendingIfIncomplete, "pending_if_incomplete"),
    ];
    for (v, name) in all {
        assert_eq!(v.as_str(), name);
        assert_eq!(UpdatePayment::from_str(name), Ok(v));
    }
    assert_eq!(UpdatePayment::from_str("ALLOW_INCOMPLETE"), Err(StripeParseError));
}

#[test]
fn update_interval_names() {
    let all = [
        (UpdateInterval::Day, "day"),
        (UpdateInterval::Month, "month"),
        (UpdateInterval::Week, "week"),
        (UpdateInterval::Year, "year"),
    ];
    for (v, name) in all {
        assert_eq!(v.as_str(), name);
        assert_eq!(UpdateInterval::from_str(name), Ok(v));
    }
    assert_eq!(UpdateInterval::from_str("hour"), Err(StripeParseError));
}

#[test]
fn update_tax_behavior_names() {
    let all = [
        (UpdateTax::Exclusive, "exclusive"),
        (UpdateTax::Inclusive, "inclusive"),
        (UpdateTax::Unspecified, "unspecified"),
    ];
    for (v, name) in all {
        assert_eq!(v.as_str(), name);
        assert_eq!(UpdateTax::from_str(name), Ok(v));
    }
    assert_eq!(UpdateTax::from_str("unspecific"), Err(StripeParseError));
}

#[test]
fn update_proration_behavior_names() {
    let all = [
        (UpdateProration::AlwaysInvoice, "always_invoice"),
        (UpdateProration::CreateProrations, "create_prorations"),
        (UpdateProration::NoProrations, "none"),
    ];
    for (v, name) in all {
        assert_eq!(v.as_str(), name);
        assert_eq!(UpdateProration::from_str(name), Ok(v));
    }
    assert_eq!(UpdateProration::from_str("always-invoice"), Err(StripeParseError));
}

#[test]
fn topup_status_names() {
    let all = [
        (TopupStatus::Canceled, "canceled"),
        (TopupStatus::Failed, "failed"),
        (TopupStatus::Pending, "pending"),
        (TopupStatus::Succeeded, "succeeded"),
    ];
    for (v, name) in all {
        assert_eq!(v.as_str(), name);
        assert_eq!(TopupStatus::from_str(name), Ok(v));
    }
    assert_eq!(TopupStatus::from_str("cancelled"), Err(StripeParseError));
}

#[test]
fn reconciliation_mode_names() {
    let all = [
        (Reconciliation::Automatic, "automatic"),
        (Reconciliation::Manual, "manual"),
        (Reconciliation::MerchantDefault, "merchant_default"),
    ];
    for (v, name) in all {
        assert_eq!(v.as_str(), name);
        assert_eq!(Reconciliation::from_str(name), Ok(v));
    }
    assert_eq!(Reconciliation::from_str("merchant-default"), Err(StripeParseError));
}

#[test]
fn parse_goes_through_the_trait() {
    assert_eq!("week".parse::<CreateInterval>(), Ok(CreateInterval::Week));
    assert_eq!("fortnight".parse::<CreateInterval>(), Err(StripeParseError));
    assert_eq!(<TopupStatus as FromStr>::from_str("failed"), Ok(TopupStatus::Failed));
}

#[test]
fn unknown_variant_carries_the_raw_text() {
    assert_eq!(
        TopupStatus::decode(&Json::String("refunded".to_string())),
        Err(DecodeError::UnknownEnumVariant {
            enum_name: "ListTopupStatus",
            raw_value: "refunded".to_string(),
        })
    );
    assert_eq!(
        DeleteProration::decode(&Json::String("None".to_string())),
        Err(DecodeError::UnknownEnumVariant {
            enum_name: "DeleteSubscriptionItemProrationBehavior",
            raw_value: "None".to_string(),
        })
    );
    assert_eq!(
        Reconciliation::decode(&Json::String(String::new())),
        Err(DecodeError::UnknownEnumVariant {
            enum_name: "UpdateCashBalanceSettingsReconciliationMode",
            raw_value: String::new(),
        })
    );
}

#[test]
fn every_enum_names_itself_in_the_error() {
    let raw = || Json::String("?".to_string());
    let name = |r: DecodeError| match r {
        DecodeError::UnknownEnumVariant { enum_name, raw_value } => {
            assert_eq!(raw_value, "?");
            enum_name
        }
        other => panic!("{:?}", other),
    };
    assert_eq!(
        name(CreatePayment::decode(&raw()).unwrap_err()),
        "CreateSubscriptionItemPaymentBehavior"
    );
    assert_eq!(
        name(CreateInterval::decode(&raw()).unwrap_err()),
        "CreateSubscriptionItemPriceDataRecurringInterval"
    );
    assert_eq!(
        name(CreateTax::decode(&raw()).unwrap_err()),
        "CreateSubscriptionItemPriceDataTaxBehavior"
    );
    assert_eq!(
        name(CreateProration::decode(&raw()).unwrap_err()),
        "CreateSubscriptionItemProrationBehavior"
    );
    assert_eq!(
        name(UpdatePayment::decode(&raw()).unwrap_err()),
        "UpdateSubscriptionItemPaymentBehavior"
    );
    assert_eq!(
        name(UpdateInterval::decode(&raw()).unwrap_err()),
        "UpdateSubscriptionItemPriceDataRecurringInterval"
    );
    assert_eq!(
        name(UpdateTax::decode(&raw()).unwrap_err()),
        "UpdateSubscriptionItemPriceDataTaxBehavior"
    );
    assert_eq!(
        name(UpdateProration::decode(&raw()).unwrap_err()),
        "UpdateSubscriptionItemProrationBehavior"
    );
}

#[test]
fn known_variant_decodes() {
    assert_eq!(
        TopupStatus::decode(&Json::String("pending".to_string())),
        Ok(TopupStatus::Pending)
    );
    assert_eq!(
        CreateTax::decode(&Json::String("inclusive".to_string())),
        Ok(CreateTax::Inclusive)
    );
}

#[test]
fn enum_from_a_value_that_is_no_string() {
    assert_eq!(
        TopupStatus::decode(&Json::Number(JsonNumber::U64(3))),
        Err(DecodeError::TypeMismatch {
            record: "ListTopupStatus",
            field: "",
            expected: JsonKind::String,
            actual: JsonKind::Integer,
        })
    );
    assert_eq!(
        TopupStatus::decode(&Json::Null),
        Err(DecodeError::TypeMismatch {
            record: "ListTopupStatus",
            field: "",
            expected: JsonKind::String,
            actual: JsonKind::Null,
        })
    );
}
