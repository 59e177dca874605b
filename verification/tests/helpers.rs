use router::api::{Address, AddressDetails, MinorUnit, PhoneDetails};
use router::domain::{or_else, MerchantConnectorAccountType, PaymentAddress};
use router::document::Stored;
use router::enums::{
    ApplePayFlow, AttemptStatus, AuthenticationType, Currency, FraudCheckStatus, FraudCheckType,
    IntentStatus, Operation, PaymentMethod, PaymentMethodType, PaymentSource,
};
use router::helpers::{
    contains_text, create_authentication_url, create_authorize_url,
    create_complete_authorize_url, create_redirect_url, create_startpay_url, create_webhook_url,
    decide_apple_pay_flow, get_connector_label, get_connector_request_reference_id,
    get_external_authentication_request_poll_id, is_manual_retry_allowed,
};
use router::storage::{PaymentAttempt, PaymentIntent};
use router::text::{decimal_text, str_eq};
use router::types::{ConnectorAuthType, ConnectorRequestReferenceIdConfig, PollConfig};

fn at(hour: u8) -> time::PrimitiveDateTime {
    time::PrimitiveDateTime::new(
        time::Date::from_calendar_date(2024, time::Month::March, 5).unwrap(),
        time::Time::from_hms(hour, 0, 0).unwrap(),
    )
}

fn some(text: &str) -> Option<String> {
    Some(text.to_string())
}

fn intent() -> PaymentIntent {
    PaymentIntent::new(
        "pay_1".to_string(),
        "merchant_1".to_string(),
        IntentStatus::RequiresConfirmation,
        MinorUnit(1234),
        at(9),
        at(10),
    )
}

fn attempt() -> PaymentAttempt {
    PaymentAttempt::new(
        "pay_1".to_string(),
        "merchant_1".to_string(),
        "pay_1_1".to_string(),
        AttemptStatus::Started,
        MinorUnit(1234),
    )
}

fn config(merchants: &[&str]) -> ConnectorRequestReferenceIdConfig {
    ConnectorRequestReferenceIdConfig {
        merchant_ids_send_payment_id_as_connector_request_id: merchants
            .iter()
            .map(|m| m.to_string())
            .collect(),
    }
}

const BASE: &str = "https://api.example.com";

#[test]
fn urls_of_a_payment() {
    assert_eq!(
        create_startpay_url(BASE, &attempt(), &intent()),
        "https://api.example.com/payments/redirect/pay_1/merchant_1/pay_1_1"
    );
    assert_eq!(
        create_redirect_url(BASE, &attempt(), "adyen", None),
        "https://api.example.com/payments/pay_1/merchant_1/redirect/response/adyen"
    );
    assert_eq!(
        create_redirect_url(BASE, &attempt(), "adyen", Some("creds_1")),
        "https://api.example.com/payments/pay_1/merchant_1/redirect/response/adyen/creds_1"
    );
    assert_eq!(
        create_authentication_url(BASE, &attempt()),
        "https://api.example.com/payments/pay_1/3ds/authentication"
    );
    assert_eq!(
        create_authorize_url(BASE, &attempt(), "adyen"),
        "https://api.example.com/payments/pay_1/merchant_1/authorize/adyen"
    );
    assert_eq!(
        create_webhook_url(BASE, "merchant_1", "adyen"),
        "https://api.example.com/webhooks/merchant_1/adyen"
    );
    assert_eq!(
        create_complete_authorize_url(BASE, &attempt(), "adyen"),
        "https://api.example.com/payments/pay_1/merchant_1/redirect/complete/adyen"
    );
    assert_eq!(create_webhook_url("", "", ""), "/webhooks//");
    assert_eq!(
        get_external_authentication_request_poll_id("pay_1"),
        "external_authentication_pay_1"
    );
}

#[test]
fn new_records_have_their_documented_defaults() {
    let pi = intent();
    assert_eq!(pi.attempt_count, 1);
    assert_eq!(pi.currency, None);
    assert_eq!(pi.order_details, None);
    assert_eq!(pi.created_at, at(9));
    assert_eq!(pi.modified_at, at(10));
    let pa = attempt();
    assert_eq!(pa.net_amount, MinorUnit(1234));
    assert_eq!(pa.amount_capturable, MinorUnit(0));
    assert!(!pa.confirm);
    assert_eq!(pa.connector, None);
    assert_eq!(MinorUnit::new(5).get_amount_as_i64(), 5);
    assert_eq!(AuthenticationType::default_type(), AuthenticationType::NoThreeDs);
    assert_eq!(PaymentMethod::default_method(), PaymentMethod::Card);
    assert_eq!(PollConfig::default_config(), PollConfig { delay_in_secs: 2, frequency: 5 });
    let account = MerchantConnectorAccountType::new(Stored {
        document: serde_json::Value::Null,
        typed: Some(ConnectorAuthType::NoKey),
    });
    assert!(!account.is_disabled());
    assert_eq!(account.is_test_mode_on(), None);
}

#[test]
fn reference_of_an_attempt() {
    assert_eq!(
        get_connector_request_reference_id(&config(&[]), "merchant_1", &attempt()),
        "pay_1_1"
    );
    assert_eq!(
        get_connector_request_reference_id(&config(&["merchant_2", "merchant_1"]), "merchant_1", &attempt()),
        "pay_1"
    );
    assert_eq!(
        get_connector_request_reference_id(&config(&["merchant_10"]), "merchant_1", &attempt()),
        "pay_1_1"
    );
}

#[test]
fn list_membership_of_texts() {
    let list = vec!["a".to_string(), "bc".to_string(), "".to_string()];
    assert!(contains_text(&list, "a"));
    assert!(contains_text(&list, "bc"));
    assert!(contains_text(&list, ""));
    assert!(!contains_text(&list, "b"));
    assert!(!contains_text(&vec![], "a"));
    assert!(str_eq("abc", "abc"));
    assert!(!str_eq("abc", "abd"));
    assert!(!str_eq("abc", "ab"));
}

#[test]
fn label_of_a_connector_account() {
    let us = "US".to_string();
    let label = "default".to_string();
    let sub = "eu".to_string();
    assert_eq!(get_connector_label(Some(&us), Some(&label), None, "adyen"), some("adyen_US_default"));
    assert_eq!(
        get_connector_label(Some(&us), Some(&label), Some(&sub), "adyen"),
        some("adyen_US_default_eu")
    );
    assert_eq!(get_connector_label(None, Some(&label), Some(&sub), "adyen"), None);
    assert_eq!(get_connector_label(Some(&us), None, None, "adyen"), None);
    assert_eq!(get_connector_label(None, None, None, "adyen"), None);
}

#[test]
fn manual_retry_policy() {
    let allowed = |intent_status, attempt_status, merchant: &str| {
        is_manual_retry_allowed(&intent_status, &attempt_status, &config(&["merchant_9"]), merchant)
    };
    for status in [
        AttemptStatus::AuthenticationFailed,
        AttemptStatus::AuthorizationFailed,
        AttemptStatus::Voided,
        AttemptStatus::RouterDeclined,
        AttemptStatus::CaptureFailed,
        AttemptStatus::VoidFailed,
        AttemptStatus::AutoRefunded,
        AttemptStatus::Failure,
    ] {
        assert_eq!(allowed(IntentStatus::Failed, status, "merchant_1"), Some(true));
        assert_eq!(allowed(IntentStatus::Failed, status, "merchant_9"), Some(false));
    }
    for status in [
        AttemptStatus::Started,
        AttemptStatus::Authorized,
        AttemptStatus::Charged,
        AttemptStatus::Pending,
        AttemptStatus::Unresolved,
    ] {
        assert_eq!(allowed(IntentStatus::Failed, status, "merchant_1"), Some(false));
    }
    for status in
        [IntentStatus::Cancelled, IntentStatus::RequiresMerchantAction, IntentStatus::Succeeded]
    {
        assert_eq!(allowed(status, AttemptStatus::Failure, "merchant_1"), Some(false));
    }
    for status in [
        IntentStatus::Processing,
        IntentStatus::RequiresCustomerAction,
        IntentStatus::RequiresPaymentMethod,
        IntentStatus::RequiresConfirmation,
        IntentStatus::RequiresCapture,
        IntentStatus::PartiallyCaptured,
        IntentStatus::PartiallyCapturedAndCapturable,
    ] {
        assert_eq!(allowed(status, AttemptStatus::Failure, "merchant_1"), None);
    }
}

#[test]
fn apple_pay_flow_of_an_account() {
    let mut account = MerchantConnectorAccountType::new(Stored {
        document: serde_json::Value::Null,
        typed: None,
    });
    account.apple_pay_flow = Some(ApplePayFlow::Simplified);
    assert_eq!(
        decide_apple_pay_flow(&Some(PaymentMethodType::ApplePay), &account),
        Some(ApplePayFlow::Simplified)
    );
    assert_eq!(decide_apple_pay_flow(&Some(PaymentMethodType::GooglePay), &account), None);
    assert_eq!(decide_apple_pay_flow(&None, &account), None);
    account.apple_pay_flow = None;
    assert_eq!(decide_apple_pay_flow(&Some(PaymentMethodType::ApplePay), &account), None);
}

#[test]
fn decimal_notation_of_numbers() {
    assert_eq!(decimal_text(0), "0");
    assert_eq!(decimal_text(7), "7");
    assert_eq!(decimal_text(10), "10");
    assert_eq!(decimal_text(1234567890), "1234567890");
    assert_eq!(decimal_text(u128::MAX), u128::MAX.to_string());
}

#[test]
fn names_of_tags() {
    assert_eq!(Currency::USD.name(), "USD");
    assert_eq!(Currency::JPY.name(), "JPY");
    assert_eq!(PaymentSource::MerchantServer.name(), "merchant_server");
    assert_eq!(PaymentSource::Webhook.name(), "webhook");
    assert_eq!(FraudCheckType::PostFrm.name(), "post_frm");
    assert_eq!(FraudCheckStatus::TransactionFailure.name(), "transaction_failure");
    assert_eq!(FraudCheckStatus::Legit.name(), "legit");
    assert!(Operation::PaymentStart.is_start_pay());
    assert!(!Operation::PaymentConfirm.is_start_pay());
    assert!(Operation::PaymentConfirm.is_confirm());
    assert!(!Operation::PaymentStatus.is_confirm());
}

fn details(city: Option<&str>, zip: Option<&str>, first_name: Option<&str>) -> AddressDetails {
    AddressDetails {
        city: city.map(str::to_string),
        country: None,
        line1: None,
        line2: None,
        line3: None,
        zip: zip.map(str::to_string),
        state: None,
        first_name: first_name.map(str::to_string),
        last_name: None,
    }
}

#[test]
fn address_is_completed_field_by_field() {
    let own = details(Some("Rome"), None, None);
    let other = details(Some("Paris"), Some("75001"), Some("Ada"));
    assert_eq!(
        own.clone().unify_address_details(Some(other.clone())),
        details(Some("Rome"), Some("75001"), Some("Ada"))
    );
    assert_eq!(own.clone().unify_address_details(None), own);
    assert_eq!(or_else(Some(1), Some(2)), Some(1));
    assert_eq!(or_else(None, Some(2)), Some(2));
    assert_eq!(or_else::<u8>(None, None), None);

    let mine = Address { address: None, phone: None, email: some("a@example.com") };
    let theirs = Address {
        address: Some(other.clone()),
        phone: Some(PhoneDetails { number: some("1"), country_code: None }),
        email: some("b@example.com"),
    };
    assert_eq!(
        mine.clone().unify_address(Some(theirs.clone())),
        Address {
            address: Some(other),
            phone: Some(PhoneDetails { number: some("1"), country_code: None }),
            email: some("a@example.com"),
        }
    );
    assert_eq!(mine.clone().unify_address(None), mine);
}

#[test]
fn addresses_of_a_payment() {
    let billing = Address { address: Some(details(Some("Paris"), Some("75001"), None)), phone: None, email: None };
    let method = Address { address: Some(details(Some("Rome"), None, None)), phone: None, email: None };
    let shipping = Address { address: None, phone: None, email: some("s@example.com") };
    let addresses =
        PaymentAddress::new(Some(shipping.clone()), Some(billing.clone()), Some(method.clone()));
    assert_eq!(addresses.get_shipping(), Some(&shipping));
    assert_eq!(addresses.get_payment_billing(), Some(&billing));
    assert_eq!(addresses.get_request_payment_method_billing(), Some(&method));
    assert_eq!(
        addresses.get_payment_method_billing(),
        Some(&Address {
            address: Some(details(Some("Rome"), Some("75001"), None)),
            phone: None,
            email: None
        })
    );
    let stored = Address { address: Some(details(None, None, Some("Ada"))), phone: None, email: None };
    let unified = addresses.unify_with_payment_data_billing(Some(stored));
    assert_eq!(
        unified.get_payment_method_billing(),
        Some(&Address {
            address: Some(details(Some("Rome"), Some("75001"), Some("Ada"))),
            phone: None,
            email: None
        })
    );
    assert_eq!(unified.get_payment_billing(), Some(&billing));
    let plain = PaymentAddress::new(None, Some(billing.clone()), None);
    assert_eq!(plain.get_payment_method_billing(), Some(&billing));
    assert_eq!(plain.unify_with_payment_data_billing(None).get_payment_method_billing(), Some(&billing));
}
