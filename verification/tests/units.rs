#![allow(dead_code)]

use router::api::{Address, AddressDetails, Card, MinorUnit, PaymentMethodData, PhoneDetails};
use router::customer::{Customer, Encryptable};
use router::document::Stored;
use router::domain::{MerchantAccount, MerchantConnectorAccountType, PaymentAddress};
use router::enums::{
    ApplePayFlow, AttemptStatus, AuthenticationStatus, AuthenticationType, CaptureMethod,
    CaptureStatus, Connector, Currency, IntentStatus, PaymentMethod, PaymentMethodStatus,
    PaymentMethodType,
};
use router::errors::{ApiErrorResponse, ConnectorError};
use router::router_data::{
    check_connector_context, check_tax_unit, check_unit, connector_api_version_key,
    construct_payment_router_data, construct_router_data_to_update_calculated_tax,
};
use router::storage::{
    Authentication, Capture, PaymentAttempt, PaymentIntent, PaymentMethodInfo,
    PaymentMethodTypeTax, SemanticVersion, TaxDetails,
};
use router::types::{
    AccessToken, AccessTokenAuth, AccessTokenRequestData, Authorize, ConnectorAuthType,
    ConnectorRequestReferenceIdConfig, PaymentData, PaymentMethodToken, PaymentsApproveData,
    PaymentsAuthorizeData, PaymentsAuthorizeRouterData, PaymentsCancelData,
    PaymentsResponseData, PaymentsSyncData, RecurringMandatePaymentData, RefreshTokenRouterData,
    RefundsData, ResponseId, RouterData, SdkPaymentsSessionUpdateData, SessionState, Settings,
    SyncRequestType,
};
use router::utils::{
    parse_struct, to_connector_meta, AccessTokenRequestInfo, AddressDetailsData,
    PaymentsAuthorizeRequestData, PaymentsCancelRequestData, PaymentsRequestData,
    PaymentsSyncRequestData, PhoneDetailsData, RefundsRequestData,
};
use router::utils::RouterData as RouterDataAccessors;

fn at(hour: u8) -> time::PrimitiveDateTime {
    time::PrimitiveDateTime::new(
        time::Date::from_calendar_date(2024, time::Month::March, 5).unwrap(),
        time::Time::from_hms(hour, 0, 0).unwrap(),
    )
}

fn doc(text: &str) -> serde_json::Value {
    serde_json::Value::String(text.to_string())
}

fn some(text: &str) -> Option<String> {
    Some(text.to_string())
}

fn intent() -> PaymentIntent {
    PaymentIntent::new(
        "pay_1".to_string(),
        "merchant_1".to_string(),
        IntentStatus::RequiresCustomerAction,
        MinorUnit(1234),
        at(9),
        at(10),
    )
}

fn attempt() -> PaymentAttempt {
    let mut attempt = PaymentAttempt::new(
        "pay_1".to_string(),
        "merchant_1".to_string(),
        "pay_1_1".to_string(),
        AttemptStatus::AuthenticationPending,
        MinorUnit(1234),
    );
    attempt.currency = Some(Currency::USD);
    attempt.connector = some("stripe");
    attempt
}

fn payment_data() -> PaymentData<Authorize> {
    PaymentData::new(
        intent(),
        attempt(),
        MinorUnit(1234),
        Currency::USD,
        PaymentAddress::new(None, None, None),
    )
}

fn authentication() -> Authentication {
    Authentication {
        authentication_id: "auth_1".to_string(),
        cavv: None,
        maximum_supported_version: Some(SemanticVersion { major: 2, minor: 2, patch: 0 }),
        message_version: some("2.2.0"),
        three_ds_method_url: some("https://acs.example.com/method"),
        three_ds_method_data: some("bWV0aG9k"),
        directory_server_id: some("ds_1"),
        authentication_flow: some("challenge"),
        electronic_commerce_indicator: some("05"),
        authentication_status: AuthenticationStatus::Pending,
        threeds_server_transaction_id: some("3ds_txn_1"),
        ds_transaction_id: some("ds_txn_1"),
        error_code: None,
        error_message: None,
    }
}

fn encryptable(text: &str) -> Encryptable {
    Encryptable { inner: text.to_string(), encrypted: text.bytes().rev().collect() }
}

fn customer() -> Customer {
    Customer {
        id: Some(7),
        customer_id: "cus_1".to_string(),
        merchant_id: "merchant_1".to_string(),
        name: Some(encryptable("Ada Lovelace")),
        email: Some(encryptable("ada@example.com")),
        phone: None,
        phone_country_code: some("+44"),
        description: some("first customer"),
        created_at: at(1),
        metadata: Some(doc("customer metadata")),
        modified_at: at(2),
        connector_customer: None,
        address_id: some("addr_1"),
        default_payment_method_id: None,
        updated_by: None,
    }
}

fn config() -> ConnectorRequestReferenceIdConfig {
    ConnectorRequestReferenceIdConfig {
        merchant_ids_send_payment_id_as_connector_request_id: vec!["merchant_9".to_string()],
    }
}

fn address(city: &str, country: &str) -> Address {
    Address {
        address: Some(AddressDetails {
            city: some(city),
            country: some(country),
            line1: some("1467 Harrison Street"),
            line2: None,
            line3: None,
            zip: some("94122"),
            state: None,
            first_name: some("Ada"),
            last_name: some("Lovelace"),
        }),
        phone: Some(PhoneDetails { number: some("8056594427"), country_code: some("+91") }),
        email: some("ada@example.com"),
    }
}

fn capture(sequence: i16, status: CaptureStatus, connector_capture_id: Option<&str>) -> Capture {
    Capture {
        capture_id: format!("pay_1_1_{sequence}"),
        payment_id: "pay_1".to_string(),
        merchant_id: "merchant_1".to_string(),
        status,
        amount: MinorUnit(100),
        currency: Some(Currency::USD),
        connector: "stripe".to_string(),
        error_message: None,
        error_code: None,
        error_reason: None,
        authorized_attempt_id: "pay_1_1".to_string(),
        connector_capture_id: connector_capture_id.map(str::to_string),
        capture_sequence: sequence,
        connector_response_reference_id: some("ref"),
    }
}

fn state() -> SessionState {
    SessionState {
        base_url: "https://api.example.com".to_string(),
        conf: Settings {
            connector_request_reference_id_config: config(),
            multiple_api_version_supported_connectors: vec![Connector::Braintree, Connector::Stripe],
        },
    }
}

fn merchant(id: &str) -> MerchantAccount {
    MerchantAccount { merchant_id: id.to_string() }
}

fn account() -> MerchantConnectorAccountType {
    let mut account = MerchantConnectorAccountType::new(Stored {
        document: doc("credentials"),
        typed: Some(ConnectorAuthType::HeaderKey { api_key: "sk_test".to_string() }),
    });
    account.test_mode = Some(true);
    account.metadata = Some(doc("account metadata"));
    account.connector_wallets_details = Some(doc("wallets"));
    account.apple_pay_flow = Some(ApplePayFlow::Manual);
    account
}

fn visa() -> PaymentMethodData {
    PaymentMethodData::Card(Card {
        card_number: "4111111111111111".to_string(),
        card_exp_month: "03".to_string(),
        card_exp_year: "2030".to_string(),
        card_holder_name: "Ada Lovelace".to_string(),
        card_cvc: "737".to_string(),
    })
}

fn card_payment() -> PaymentData<Authorize> {
    let mut data = payment_data();
    data.payment_method_data = Some(visa());
    data.payment_attempt.payment_method = Some(PaymentMethod::Card);
    data.address = PaymentAddress::new(None, Some(address("Paris", "FR")), None);
    data
}

type Encoded = Option<Result<serde_json::Value, serde_json::Error>>;

fn encoding_failure() -> serde_json::Error {
    serde_json::from_str::<serde_json::Value>("{").unwrap_err()
}

fn authorize_unit(
    data: PaymentData<Authorize>,
    customer: &Option<Customer>,
) -> Result<PaymentsAuthorizeRouterData, ApiErrorResponse> {
    let encoded: Encoded = None;
    construct_payment_router_data(
        &state(),
        data,
        "stripe",
        &merchant("merchant_1"),
        customer,
        &account(),
        encoded,
        some("2024-04-10"),
    )
}

fn unit() -> PaymentsAuthorizeRouterData {
    authorize_unit(card_payment(), &None).unwrap()
}

#[test]
fn unit_of_an_authorization() {
    let mut data = card_payment();
    data.payment_intent.description = some("two books");
    data.payment_intent.return_url = some("https://shop.example.com/done");
    data.payment_intent.amount_captured = Some(MinorUnit(1000));
    data.payment_attempt.connector_transaction_id = some("txn_1");
    data.payment_attempt.preprocessing_step_id = some("pre_1");
    data.payment_attempt.authentication_type = Some(AuthenticationType::ThreeDs);
    data.address = PaymentAddress::new(Some(address("London", "GB")), Some(address("Paris", "FR")), None);
    data.pm_token = some("pm_tok_1");
    data.connector_customer_id = some("cc_1");
    data.recurring_mandate_payment_data = Some(RecurringMandatePaymentData {
        payment_method_type: Some(PaymentMethodType::Credit),
        original_payment_authorized_amount: Some(100),
        original_payment_authorized_currency: Some(Currency::USD),
    });
    let unit = authorize_unit(data, &Some(customer())).unwrap();
    assert_eq!(unit.merchant_id, "merchant_1");
    assert_eq!(unit.customer_id, some("cus_1"));
    assert_eq!(unit.connector, "stripe");
    assert_eq!(unit.payment_id, "pay_1");
    assert_eq!(unit.attempt_id, "pay_1_1");
    assert_eq!(unit.status, AttemptStatus::AuthenticationPending);
    assert_eq!(unit.payment_method, PaymentMethod::Card);
    assert_eq!(unit.connector_auth_type, ConnectorAuthType::HeaderKey { api_key: "sk_test".to_string() });
    assert_eq!(unit.description, some("two books"));
    assert_eq!(unit.return_url, some("https://shop.example.com/done"));
    assert_eq!(unit.address.shipping, Some(address("London", "GB")));
    assert_eq!(unit.address.billing, Some(address("Paris", "FR")));
    assert_eq!(unit.address.unified_payment_method_billing, Some(address("Paris", "FR")));
    assert_eq!(unit.auth_type, AuthenticationType::ThreeDs);
    assert_eq!(unit.connector_meta_data, Some(doc("account metadata")));
    assert_eq!(unit.connector_wallets_details, Some(doc("wallets")));
    assert_eq!(unit.request.payment_method_data, visa());
    assert_eq!(unit.request.amount, 1234);
    assert_eq!(unit.request.customer_id, some("cus_1"));
    assert_eq!(
        unit.request.webhook_url,
        some("https://api.example.com/webhooks/merchant_1/stripe")
    );
    assert_eq!(
        unit.response,
        Ok(PaymentsResponseData::TransactionResponse {
            resource_id: ResponseId::ConnectorTransactionId("txn_1".to_string()),
            redirection_data: None,
            mandate_reference: None,
            connector_metadata: None,
            network_txn_id: None,
            connector_response_reference_id: None,
            incremental_authorization_allowed: None,
            charge_id: None,
        })
    );
    assert_eq!(unit.amount_captured, Some(1000));
    assert_eq!(unit.minor_amount_captured, Some(MinorUnit(1000)));
    assert_eq!(unit.payment_method_token, Some(PaymentMethodToken::Token("pm_tok_1".to_string())));
    assert_eq!(unit.connector_customer, some("cc_1"));
    assert_eq!(
        unit.recurring_mandate_payment_data.and_then(|r| r.original_payment_authorized_amount),
        Some(100)
    );
    assert_eq!(unit.connector_request_reference_id, "pay_1_1");
    assert_eq!(unit.preprocessing_id, some("pre_1"));
    assert_eq!(unit.test_mode, Some(true));
    assert_eq!(unit.connector_api_version, some("2024-04-10"));
    assert_eq!(unit.apple_pay_flow, None);
    assert_eq!(unit.access_token, None);
    assert_eq!(unit.session_token, None);
    assert_eq!(unit.connector_http_status_code, None);
    assert_eq!(unit.integrity_check, Ok(()));
}

#[test]
fn fresh_unit_names_no_transaction() {
    match unit().response {
        Ok(PaymentsResponseData::TransactionResponse { resource_id, .. }) => {
            assert_eq!(resource_id, ResponseId::NoResponseId)
        }
        other => panic!("no placeholder: {other:?}"),
    }
    assert_eq!(unit().auth_type, AuthenticationType::NoThreeDs);
}

#[test]
fn disabled_account_fails_before_anything_else() {
    let mut disabled = account();
    disabled.disabled = Some(true);
    disabled.connector_account_details = Stored { document: doc("?"), typed: None };
    let encoded: Encoded = Some(Err(encoding_failure()));
    let outcome: Result<PaymentsAuthorizeRouterData, _> = construct_payment_router_data(
        &state(),
        payment_data(),
        "no_such_connector",
        &merchant("merchant_1"),
        &None,
        &disabled,
        encoded,
        None,
    );
    assert_eq!(outcome, Err(ApiErrorResponse::MerchantConnectorAccountDisabled));

    let mut enabled = account();
    enabled.disabled = Some(false);
    let encoded: Encoded = None;
    let outcome: Result<PaymentsAuthorizeRouterData, _> = construct_payment_router_data(
        &state(),
        card_payment(),
        "stripe",
        &merchant("merchant_1"),
        &None,
        &enabled,
        encoded,
        None,
    );
    assert!(outcome.is_ok());
}

#[test]
fn unit_checks_run_in_their_order() {
    let construct = |data: PaymentData<Authorize>,
                     connector: &str,
                     account: MerchantConnectorAccountType,
                     encoded: Encoded| {
        let outcome: Result<PaymentsAuthorizeRouterData, _> = construct_payment_router_data(
            &state(),
            data,
            connector,
            &merchant("merchant_1"),
            &None,
            &account,
            encoded,
            None,
        );
        outcome.map(|_| ())
    };
    let mut no_credentials = account();
    no_credentials.connector_account_details = Stored { document: doc("?"), typed: None };
    assert_eq!(
        construct(payment_data(), "nope", no_credentials, None),
        Err(ApiErrorResponse::InternalServerError)
    );
    assert_eq!(
        construct(payment_data(), "nope", account(), None),
        Err(ApiErrorResponse::MissingRequiredField { field_name: "payment_method_type" })
    );
    assert_eq!(
        construct(card_payment(), "nope", account(), None),
        Err(ApiErrorResponse::InvalidDataValue { field_name: "connector" })
    );
    let mut data = card_payment();
    data.payment_method_info = Some(PaymentMethodInfo {
        payment_method_id: "pm_1".to_string(),
        status: PaymentMethodStatus::Active,
        payment_method_billing_address: Some(Stored { document: doc("?"), typed: None }),
    });
    assert_eq!(
        construct(data, "stripe", account(), Some(Err(encoding_failure()))),
        Err(ApiErrorResponse::InternalServerError)
    );
    assert_eq!(
        construct(card_payment(), "stripe", account(), Some(Err(encoding_failure()))),
        Err(ApiErrorResponse::InternalServerError)
    );
    let mut data = card_payment();
    data.payment_method_data = None;
    assert_eq!(
        construct(data, "stripe", account(), None),
        Err(ApiErrorResponse::MissingRequiredField { field_name: "payment_method_data" })
    );
    let mut data = card_payment();
    data.address = PaymentAddress::new(None, None, None);
    assert_eq!(
        construct(data, "stripe", account(), None),
        Err(ApiErrorResponse::MissingRequiredField { field_name: "billing.address.country" })
    );
    assert_eq!(construct(card_payment(), "stripe", account(), None), Ok(()));
}

#[test]
fn merchant_recipient_data_replace_the_account_metadata() {
    let encoded: Encoded = Some(Ok(doc("recipient")));
    let unit: PaymentsAuthorizeRouterData = construct_payment_router_data(
        &state(),
        card_payment(),
        "stripe",
        &merchant("merchant_1"),
        &None,
        &account(),
        encoded,
        None,
    )
    .unwrap();
    assert_eq!(unit.connector_meta_data, Some(doc("recipient")));
}

#[test]
fn api_version_is_only_for_the_connectors_that_support_one() {
    let version_for = |connector: &str| {
        let encoded: Encoded = None;
        let unit: RouterData<Authorize, PaymentsApproveData, PaymentsResponseData> =
            construct_payment_router_data(
                &state(),
                card_payment(),
                connector,
                &merchant("merchant_1"),
                &None,
                &account(),
                encoded,
                some("2024-04-10"),
            )
            .unwrap();
        unit.connector_api_version
    };
    assert_eq!(version_for("stripe"), some("2024-04-10"));
    assert_eq!(version_for("braintree"), some("2024-04-10"));
    assert_eq!(version_for("adyen"), None);

    assert_eq!(connector_api_version_key(&state(), "stripe"), some("connector_api_version_stripe"));
    assert_eq!(connector_api_version_key(&state(), "adyen"), None);
    assert_eq!(connector_api_version_key(&state(), "no_such_connector"), None);
}

#[test]
fn reference_is_the_payment_id_for_the_merchants_configured_so() {
    let reference_for = |merchant_id: &str| {
        let encoded: Encoded = None;
        let unit: PaymentsAuthorizeRouterData = construct_payment_router_data(
            &state(),
            card_payment(),
            "stripe",
            &merchant(merchant_id),
            &None,
            &account(),
            encoded,
            None,
        )
        .unwrap();
        unit.connector_request_reference_id
    };
    assert_eq!(reference_for("merchant_1"), "pay_1_1");
    assert_eq!(reference_for("merchant_9"), "pay_1");
}

#[test]
fn apple_pay_flow_is_only_for_apple_pay() {
    let mut data = card_payment();
    data.payment_attempt.payment_method_type = Some(PaymentMethodType::ApplePay);
    assert_eq!(authorize_unit(data, &None).unwrap().apple_pay_flow, Some(ApplePayFlow::Manual));
    let mut data = card_payment();
    data.payment_attempt.payment_method_type = Some(PaymentMethodType::GooglePay);
    assert_eq!(authorize_unit(data, &None).unwrap().apple_pay_flow, None);
}

#[test]
fn stored_billing_of_the_method_completes_the_unified_address() {
    let mut stored = address("Rome", "IT");
    stored.email = None;
    stored.address.as_mut().unwrap().zip = None;
    let mut data = card_payment();
    data.address = PaymentAddress::new(None, Some(address("Paris", "FR")), None);
    data.payment_method_info = Some(PaymentMethodInfo {
        payment_method_id: "pm_1".to_string(),
        status: PaymentMethodStatus::Inactive,
        payment_method_billing_address: Some(Stored { document: doc("b"), typed: Some(stored) }),
    });
    let unit = authorize_unit(data, &None).unwrap();
    let unified = unit.address.unified_payment_method_billing.unwrap();
    assert_eq!(unified.address.as_ref().unwrap().city, some("Rome"));
    assert_eq!(unified.address.as_ref().unwrap().country, some("IT"));
    assert_eq!(unified.address.as_ref().unwrap().zip, some("94122"));
    assert_eq!(unified.email, some("ada@example.com"));
    assert_eq!(unit.address.billing, Some(address("Paris", "FR")));
    assert_eq!(unit.payment_method_status, Some(PaymentMethodStatus::Inactive));
}

#[test]
fn unit_of_a_tax_update() {
    let mut data = payment_data();
    data.session_id = some("sess_1");
    data.payment_intent.description = some("two books");
    data.payment_intent.tax_details = Some(TaxDetails {
        default: None,
        payment_method_type: Some(PaymentMethodTypeTax {
            order_tax_amount: MinorUnit(66),
            pmt: PaymentMethodType::Klarna,
        }),
    });
    data.address = PaymentAddress::new(Some(address("London", "GB")), None, None);
    let encoded: Encoded = None;
    let unit: RouterData<Authorize, SdkPaymentsSessionUpdateData, PaymentsResponseData> =
        construct_router_data_to_update_calculated_tax(
            &state(),
            data,
            "klarna",
            &merchant("merchant_1"),
            &Some(customer()),
            &account(),
            encoded,
        )
        .unwrap();
    assert_eq!(unit.request.net_amount, MinorUnit(1300));
    assert_eq!(unit.request.order_tax_amount, MinorUnit(66));
    assert_eq!(unit.connector, "klarna");
    assert_eq!(unit.customer_id, None);
    assert_eq!(unit.description, None);
    assert_eq!(unit.payment_method, PaymentMethod::Card);
    assert_eq!(unit.address.shipping, Some(address("London", "GB")));
    assert_eq!(unit.connector_wallets_details, None);
    assert_eq!(unit.connector_api_version, None);
    assert_eq!(unit.test_mode, Some(true));
    assert_eq!(unit.connector_meta_data, Some(doc("account metadata")));
    assert_eq!(unit.connector_request_reference_id, "pay_1_1");
}

#[test]
fn tax_update_fails_as_its_checks_say() {
    let construct = |data: PaymentData<Authorize>, account: MerchantConnectorAccountType, encoded: Encoded| {
        let outcome: Result<RouterData<Authorize, SdkPaymentsSessionUpdateData, PaymentsResponseData>, _> =
            construct_router_data_to_update_calculated_tax(
                &state(),
                data,
                "klarna",
                &merchant("merchant_1"),
                &None,
                &account,
                encoded,
            );
        outcome.map(|_| ())
    };
    let mut disabled = account();
    disabled.disabled = Some(true);
    assert_eq!(
        construct(payment_data(), disabled, None),
        Err(ApiErrorResponse::MerchantConnectorAccountDisabled)
    );
    let mut no_credentials = account();
    no_credentials.connector_account_details = Stored { document: doc("?"), typed: None };
    assert_eq!(
        construct(payment_data(), no_credentials, None),
        Err(ApiErrorResponse::InternalServerError)
    );
    assert_eq!(
        construct(payment_data(), account(), Some(Err(encoding_failure()))),
        Err(ApiErrorResponse::InternalServerError)
    );
    assert_eq!(
        construct(payment_data(), account(), None),
        Err(ApiErrorResponse::MissingRequiredField { field_name: "order_tax_amount" })
    );
}

#[test]
fn missing_billing_country_names_its_path() {
    let missing = Err(ConnectorError::MissingRequiredField { field_name: "billing.address.country" });
    let mut u = unit();
    assert_eq!(u.get_billing_country(), Ok("FR".to_string()));
    u.address.billing = None;
    assert_eq!(u.get_billing_country(), missing);
    u.address.billing = Some(Address { address: None, phone: None, email: None });
    assert_eq!(u.get_billing_country(), missing);
    let mut without_country = address("Paris", "FR");
    without_country.address.as_mut().unwrap().country = None;
    u.address.billing = Some(without_country);
    assert_eq!(u.get_billing_country(), missing);
    u.address.billing = Some(address("Paris", "FR"));
    assert_eq!(u.get_billing_country(), Ok("FR".to_string()));
}

#[test]
fn billing_accessors_name_what_is_missing() {
    let mut u = unit();
    u.address.billing = None;
    assert_eq!(u.get_billing(), Err(ConnectorError::MissingRequiredField { field_name: "billing" }));
    assert_eq!(
        u.get_billing_phone(),
        Err(ConnectorError::MissingRequiredField { field_name: "billing.phone" })
    );
    assert_eq!(
        u.get_billing_address(),
        Err(ConnectorError::MissingRequiredField { field_name: "billing.address" })
    );
    u.address.billing = Some(Address { address: None, phone: None, email: some("a@b.c") });
    assert_eq!(u.get_billing().map(|b| b.email.clone()), Ok(some("a@b.c")));
    assert_eq!(
        u.get_billing_phone(),
        Err(ConnectorError::MissingRequiredField { field_name: "billing.phone" })
    );
    assert_eq!(
        u.get_billing_address(),
        Err(ConnectorError::MissingRequiredField { field_name: "billing.address" })
    );
    u.address.billing = Some(address("Paris", "FR"));
    assert_eq!(u.get_billing(), Ok(&address("Paris", "FR")));
    assert_eq!(
        u.get_billing_phone(),
        Ok(&PhoneDetails { number: some("8056594427"), country_code: some("+91") })
    );
    assert_eq!(u.get_billing_address().map(|a| a.city.clone()), Ok(some("Paris")));
}

#[test]
fn unit_accessors_name_what_is_missing() {
    let mut u = unit();
    u.connector_meta_data = None;
    assert_eq!(
        u.get_description(),
        Err(ConnectorError::MissingRequiredField { field_name: "description" })
    );
    assert_eq!(
        u.get_session_token(),
        Err(ConnectorError::MissingRequiredField { field_name: "session_token" })
    );
    assert_eq!(
        u.get_return_url(),
        Err(ConnectorError::MissingRequiredField { field_name: "return_url" })
    );
    assert_eq!(
        u.get_connector_meta(),
        Err(ConnectorError::MissingRequiredField { field_name: "connector_meta_data" })
    );
    u.description = some("two books");
    u.session_token = some("sess_tok");
    u.return_url = some("https://shop.example.com/done");
    u.connector_meta_data = Some(doc("meta"));
    assert_eq!(u.get_description(), Ok("two books".to_string()));
    assert_eq!(u.get_session_token(), Ok("sess_tok".to_string()));
    assert_eq!(u.get_return_url(), Ok("https://shop.example.com/done".to_string()));
    assert_eq!(u.get_connector_meta(), Ok(doc("meta")));
}

#[test]
fn connector_metadata_of_a_unit_are_read_as_asked() {
    let mut u = unit();
    u.connector_meta_data = None;
    assert_eq!(
        u.to_connector_meta::<u32>(Ok(7)),
        Err(ConnectorError::MissingRequiredField { field_name: "connector_meta_data" })
    );
    u.connector_meta_data = Some(doc("meta"));
    assert_eq!(u.to_connector_meta::<u32>(Ok(7)), Ok(7));
    assert_eq!(
        u.to_connector_meta::<u32>(Err(encoding_failure())),
        Err(ConnectorError::NoConnectorMetaData)
    );
}

#[test]
fn documents_are_read_as_asked() {
    assert_eq!(parse_struct::<u32>(doc("meta"), Ok(7), "u32"), Ok(7));
    assert_eq!(
        parse_struct::<u32>(doc("meta"), Err(encoding_failure()), "u32"),
        Err(ConnectorError::ParsingFailed {
            from_type: "Json",
            to_type: "u32",
            data: "\"meta\"".to_string(),
        })
    );
    let mut object = serde_json::Map::new();
    object.insert("id".to_string(), serde_json::Value::from(7));
    assert_eq!(
        parse_struct::<String>(serde_json::Value::Object(object), Err(encoding_failure()), "String"),
        Err(ConnectorError::ParsingFailed {
            from_type: "Json",
            to_type: "String",
            data: "{\"id\":7}".to_string(),
        })
    );
    assert_eq!(
        to_connector_meta::<u32>(None, Ok(7), "u32"),
        Err(ConnectorError::MissingRequiredField { field_name: "connector_meta_data" })
    );
    assert_eq!(to_connector_meta::<u32>(Some(doc("meta")), Ok(7), "u32"), Ok(7));
    assert!(matches!(
        to_connector_meta::<u32>(Some(doc("meta")), Err(encoding_failure()), "u32"),
        Err(ConnectorError::ParsingFailed { from_type: "Json", to_type: "u32", .. })
    ));
}

#[test]
fn card_of_an_authorization() {
    let u = unit();
    assert_eq!(u.get_card().map(|c| c.card_number), Ok("4111111111111111".to_string()));
    let mut u = unit();
    u.request.payment_method_data = PaymentMethodData::Wallet(doc("wallet"));
    assert_eq!(u.get_card(), Err(ConnectorError::MissingRequiredField { field_name: "card" }));
    u.request.payment_method_data = PaymentMethodData::MandatePayment;
    assert_eq!(u.get_card(), Err(ConnectorError::MissingRequiredField { field_name: "card" }));
}

#[test]
fn capture_is_automatic_only_where_it_says_so() {
    let mut request = unit().request;
    assert!(!PaymentsAuthorizeRequestData::is_auto_capture(&request));
    request.capture_method = Some(CaptureMethod::Automatic);
    assert!(PaymentsAuthorizeRequestData::is_auto_capture(&request));
    request.capture_method = Some(CaptureMethod::Manual);
    assert!(!PaymentsAuthorizeRequestData::is_auto_capture(&request));

    let mut sync = PaymentsSyncData {
        connector_transaction_id: ResponseId::NoResponseId,
        encoded_data: None,
        capture_method: None,
        connector_meta: None,
        sync_type: SyncRequestType::SinglePaymentSync,
        mandate_id: None,
        payment_method_type: None,
        currency: Currency::USD,
        payment_experience: None,
        amount: MinorUnit(1),
    };
    assert!(!PaymentsSyncRequestData::is_auto_capture(&sync));
    sync.capture_method = Some(CaptureMethod::Automatic);
    assert!(PaymentsSyncRequestData::is_auto_capture(&sync));
    sync.capture_method = Some(CaptureMethod::Scheduled);
    assert!(!PaymentsSyncRequestData::is_auto_capture(&sync));
}

#[test]
fn cancel_request_accessors() {
    let mut cancel = PaymentsCancelData {
        amount: None,
        minor_amount: None,
        currency: None,
        connector_transaction_id: "txn_1".to_string(),
        cancellation_reason: None,
        connector_meta: None,
        browser_info: None,
        metadata: None,
    };
    assert_eq!(cancel.get_amount(), Err(ConnectorError::MissingRequiredField { field_name: "amount" }));
    assert_eq!(
        cancel.get_currency(),
        Err(ConnectorError::MissingRequiredField { field_name: "currency" })
    );
    cancel.amount = Some(-7);
    cancel.currency = Some(Currency::KRW);
    assert_eq!(cancel.get_amount(), Ok(-7));
    assert_eq!(cancel.get_currency(), Ok(Currency::KRW));
}

#[test]
fn refund_without_connector_id_misses_the_transaction_id() {
    let mut refund = RefundsData {
        refund_id: "ref_1".to_string(),
        connector_transaction_id: "txn_1".to_string(),
        connector_refund_id: None,
        currency: Currency::USD,
        payment_amount: 1234,
        refund_amount: 234,
        reason: None,
    };
    assert_eq!(refund.get_connector_refund_id(), Err(ConnectorError::MissingConnectorTransactionID));
    refund.connector_refund_id = some("re_77");
    assert_eq!(refund.get_connector_refund_id(), Ok("re_77".to_string()));
}

#[test]
fn access_token_request_id() {
    let u = unit();
    let mut token_unit: RefreshTokenRouterData = RouterData {
        flow: std::marker::PhantomData::<AccessTokenAuth>,
        merchant_id: u.merchant_id,
        customer_id: None,
        connector: u.connector,
        payment_id: u.payment_id,
        attempt_id: u.attempt_id,
        status: u.status,
        payment_method: u.payment_method,
        connector_auth_type: u.connector_auth_type,
        description: None,
        return_url: None,
        address: u.address,
        auth_type: u.auth_type,
        connector_meta_data: None,
        connector_wallets_details: None,
        request: AccessTokenRequestData { app_id: "app_1".to_string(), id: None },
        response: Ok(AccessToken { token: "tok".to_string(), expires: 3600 }),
        amount_captured: None,
        minor_amount_captured: None,
        access_token: None,
        session_token: None,
        reference_id: None,
        payment_method_status: None,
        payment_method_token: None,
        connector_customer: None,
        recurring_mandate_payment_data: None,
        connector_request_reference_id: u.connector_request_reference_id,
        preprocessing_id: None,
        test_mode: None,
        payment_method_balance: None,
        connector_api_version: None,
        connector_http_status_code: None,
        external_latency: None,
        apple_pay_flow: None,
        frm_metadata: None,
        refund_id: None,
        dispute_id: None,
        integrity_check: Ok(()),
    };
    assert_eq!(
        token_unit.get_request_id(),
        Err(ConnectorError::MissingRequiredField { field_name: "request.id" })
    );
    token_unit.request.id = some("req_1");
    assert_eq!(token_unit.get_request_id(), Ok("req_1".to_string()));
}

#[test]
fn phone_accessors_name_what_is_missing() {
    let mut phone = PhoneDetails { number: None, country_code: None };
    assert_eq!(
        phone.get_number(),
        Err(ConnectorError::MissingRequiredField { field_name: "billing.phone.number" })
    );
    assert_eq!(
        phone.get_country_code(),
        Err(ConnectorError::MissingRequiredField { field_name: "billing.phone.country_code" })
    );
    phone.number = some("8056594427");
    phone.country_code = some("+91");
    assert_eq!(phone.get_number(), Ok("8056594427".to_string()));
    assert_eq!(phone.get_country_code(), Ok("+91".to_string()));
}

#[test]
fn address_accessors_name_what_is_missing() {
    let empty = AddressDetails {
        city: None,
        country: None,
        line1: None,
        line2: None,
        line3: None,
        zip: None,
        state: None,
        first_name: None,
        last_name: None,
    };
    let missing = |field_name| Err(ConnectorError::MissingRequiredField { field_name });
    assert_eq!(empty.get_first_name(), missing("address.first_name"));
    assert_eq!(empty.get_last_name(), missing("address.last_name"));
    assert_eq!(empty.get_line1(), missing("address.line1"));
    assert_eq!(empty.get_line2(), missing("address.line2"));
    assert_eq!(empty.get_city(), missing("address.city"));
    assert_eq!(empty.get_zip(), missing("address.zip"));
    assert_eq!(empty.get_country(), missing("address.country"));

    let full = AddressDetails {
        city: some("San Fransico"),
        country: some("US"),
        line1: some("1467"),
        line2: some("Harrison Street"),
        line3: some("Harrison Street"),
        zip: some("94122"),
        state: some("California"),
        first_name: some("joseph"),
        last_name: some("Doe"),
    };
    assert_eq!(full.get_first_name(), Ok(&"joseph".to_string()));
    assert_eq!(full.get_last_name(), Ok(&"Doe".to_string()));
    assert_eq!(full.get_line1(), Ok(&"1467".to_string()));
    assert_eq!(full.get_line2(), Ok(&"Harrison Street".to_string()));
    assert_eq!(full.get_city(), Ok(&"San Fransico".to_string()));
    assert_eq!(full.get_zip(), Ok(&"94122".to_string()));
    assert_eq!(full.get_country(), Ok(&"US".to_string()));
}

#[test]
fn checks_before_the_store_is_asked() {
    let mut disabled = account();
    disabled.disabled = Some(true);
    assert_eq!(
        check_connector_context(&payment_data(), "nope", &disabled),
        Err(ApiErrorResponse::MerchantConnectorAccountDisabled)
    );
    let mut no_credentials = account();
    no_credentials.connector_account_details = Stored { document: doc("?"), typed: None };
    assert_eq!(
        check_connector_context(&payment_data(), "nope", &no_credentials),
        Err(ApiErrorResponse::InternalServerError)
    );
    assert_eq!(
        check_connector_context(&payment_data(), "nope", &account()),
        Err(ApiErrorResponse::MissingRequiredField { field_name: "payment_method_type" })
    );
    assert_eq!(
        check_connector_context(&card_payment(), "nope", &account()),
        Err(ApiErrorResponse::InvalidDataValue { field_name: "connector" })
    );
    assert_eq!(check_connector_context(&card_payment(), "stripe", &account()), Ok(()));
}

#[test]
fn checks_before_the_request_is_built() {
    let none: Encoded = None;
    assert_eq!(check_unit(&card_payment(), "stripe", &account(), &none), Ok(()));
    assert_eq!(
        check_unit(&card_payment(), "nope", &account(), &Some(Err(encoding_failure()))),
        Err(ApiErrorResponse::InvalidDataValue { field_name: "connector" })
    );
    assert_eq!(
        check_unit(&card_payment(), "stripe", &account(), &Some(Err(encoding_failure()))),
        Err(ApiErrorResponse::InternalServerError)
    );
    let given: Encoded = Some(Ok(doc("r")));
    assert_eq!(check_unit(&card_payment(), "stripe", &account(), &given), Ok(()));
    let mut data = card_payment();
    data.payment_method_info = Some(PaymentMethodInfo {
        payment_method_id: "pm_1".to_string(),
        status: PaymentMethodStatus::Active,
        payment_method_billing_address: Some(Stored { document: doc("?"), typed: None }),
    });
    assert_eq!(
        check_unit(&data, "stripe", &account(), &none),
        Err(ApiErrorResponse::InternalServerError)
    );

    let mut disabled = account();
    disabled.disabled = Some(true);
    assert_eq!(
        check_tax_unit(&disabled, &Some(Err(encoding_failure()))),
        Err(ApiErrorResponse::MerchantConnectorAccountDisabled)
    );
    assert_eq!(
        check_tax_unit(&account(), &Some(Err(encoding_failure()))),
        Err(ApiErrorResponse::InternalServerError)
    );
    assert_eq!(check_tax_unit(&account(), &none), Ok(()));
}
