#![allow(dead_code)]

use router::api::{
    BankTransferNextStepsData, VoucherNextStepData, Address, AddressDetails, CaptureResponse, CustomerAcceptance, CustomerData,
    CustomerDetailsResponse, DisplayAmountOnSdk, EphemeralKeyCreateResponse, FrmMessage,
    MandateAmountData, MandateData, MandateType, MinorUnit, NextActionData, OnlineMandate,
    PaymentChargeResponse, PaymentCharges, PaymentMethodData, PaymentMethodDataResponse,
    PaymentMethodDataResponseWithBilling, PaymentsDynamicTaxCalculationResponse,
    PaymentsResponse, PaymentsSessionResponse, PhoneDetails, RefundResponse,
    RequestSurchargeDetails, SessionToken, VerifyResponse, ExternalAuthenticationDetailsResponse,
};
use router::customer::{Customer, Encryptable};
use router::document::Stored;
use router::domain;
use router::domain::PaymentAddress;
use router::enums::{
    AcceptanceType, AttemptStatus, AuthFlow, AuthenticationStatus, CaptureStatus, Currency,
    FraudCheckStatus, FraudCheckType, IntentStatus, Operation, PaymentChargeType, PaymentMethod,
    PaymentMethodStatus, PaymentSource, RedirectMethod,
};
use router::errors::ApiErrorResponse;
use router::response::payments_to_payments_response;
use router::storage::{
    AttemptMetadata, AttemptPaymentMethodData, Authentication, Capture, DefaultTax, EphemeralKey,
    FraudCheck, PaymentAttempt, PaymentIntent, PaymentMethodInfo, PaymentMethodTypeTax,
    SemanticVersion, TaxDetails,
};
use router::to_response::ToResponse;
use router::types::{
    ApplicationResponse, Authorize, ConnectorRequestReferenceIdConfig, MandateIds,
    MultipleCaptureData, PaymentData, RedirectForm, RedirectionFormData,
};

fn at(hour: u8) -> time::PrimitiveDateTime {
    time::PrimitiveDateTime::new(
        time::Date::from_calendar_date(2024, time::Month::March, 5).unwrap(),
        time::Time::from_hms(hour, 0, 0).unwrap(),
    )
}

fn doc(text: &str) -> serde_json::Value {
    serde_json::Value::String(text.to_string())
}

fn some(text: &str) -> Option<String> {
    Some(text.to_string())
}

fn intent() -> PaymentIntent {
    PaymentIntent::new(
        "pay_1".to_string(),
        "merchant_1".to_string(),
        IntentStatus::RequiresCustomerAction,
        MinorUnit(1234),
        at(9),
        at(10),
    )
}

fn attempt() -> PaymentAttempt {
    let mut attempt = PaymentAttempt::new(
        "pay_1".to_string(),
        "merchant_1".to_string(),
        "pay_1_1".to_string(),
        AttemptStatus::AuthenticationPending,
        MinorUnit(1234),
    );
    attempt.currency = Some(Currency::USD);
    attempt.connector = some("stripe");
    attempt
}

fn payment_data() -> PaymentData<Authorize> {
    PaymentData::new(
        intent(),
        attempt(),
        MinorUnit(1234),
        Currency::USD,
        PaymentAddress::new(None, None, None),
    )
}

fn authentication() -> Authentication {
    Authentication {
        authentication_id: "auth_1".to_string(),
        cavv: None,
        maximum_supported_version: Some(SemanticVersion { major: 2, minor: 2, patch: 0 }),
        message_version: some("2.2.0"),
        three_ds_method_url: some("https://acs.example.com/method"),
        three_ds_method_data: some("bWV0aG9k"),
        directory_server_id: some("ds_1"),
        authentication_flow: some("challenge"),
        electronic_commerce_indicator: some("05"),
        authentication_status: AuthenticationStatus::Pending,
        threeds_server_transaction_id: some("3ds_txn_1"),
        ds_transaction_id: some("ds_txn_1"),
        error_code: None,
        error_message: None,
    }
}

fn encryptable(text: &str) -> Encryptable {
    Encryptable { inner: text.to_string(), encrypted: text.bytes().rev().collect() }
}

fn customer() -> Customer {
    Customer {
        id: Some(7),
        customer_id: "cus_1".to_string(),
        merchant_id: "merchant_1".to_string(),
        name: Some(encryptable("Ada Lovelace")),
        email: Some(encryptable("ada@example.com")),
        phone: None,
        phone_country_code: some("+44"),
        description: some("first customer"),
        created_at: at(1),
        metadata: Some(doc("customer metadata")),
        modified_at: at(2),
        connector_customer: None,
        address_id: some("addr_1"),
        default_payment_method_id: None,
        updated_by: None,
    }
}

fn config() -> ConnectorRequestReferenceIdConfig {
    ConnectorRequestReferenceIdConfig {
        merchant_ids_send_payment_id_as_connector_request_id: vec!["merchant_9".to_string()],
    }
}

fn address(city: &str, country: &str) -> Address {
    Address {
        address: Some(AddressDetails {
            city: some(city),
            country: some(country),
            line1: some("1467 Harrison Street"),
            line2: None,
            line3: None,
            zip: some("94122"),
            state: None,
            first_name: some("Ada"),
            last_name: some("Lovelace"),
        }),
        phone: Some(PhoneDetails { number: some("8056594427"), country_code: some("+91") }),
        email: some("ada@example.com"),
    }
}

fn capture(sequence: i16, status: CaptureStatus, connector_capture_id: Option<&str>) -> Capture {
    Capture {
        capture_id: format!("pay_1_1_{sequence}"),
        payment_id: "pay_1".to_string(),
        merchant_id: "merchant_1".to_string(),
        status,
        amount: MinorUnit(100),
        currency: Some(Currency::USD),
        connector: "stripe".to_string(),
        error_message: None,
        error_code: None,
        error_reason: None,
        authorized_attempt_id: "pay_1_1".to_string(),
        connector_capture_id: connector_capture_id.map(str::to_string),
        capture_sequence: sequence,
        connector_response_reference_id: some("ref"),
    }
}

const BASE: &str = "https://api.example.com";

fn unify(
    data: PaymentData<Authorize>,
    customer: Option<Customer>,
    operation: Operation,
) -> Result<ApplicationResponse<PaymentsResponse>, ApiErrorResponse> {
    payments_to_payments_response(
        data,
        None,
        customer,
        AuthFlow::Merchant,
        BASE,
        &operation,
        &config(),
        None,
        None,
        None,
    )
}

fn body(
    data: PaymentData<Authorize>,
    customer: Option<Customer>,
) -> PaymentsResponse {
    match unify(data, customer, Operation::PaymentStatus) {
        Ok(ApplicationResponse::JsonWithHeaders((response, _))) => response,
        other => panic!("no body: {other:?}"),
    }
}

fn method_details() -> AttemptPaymentMethodData {
    AttemptPaymentMethodData {
        document: doc("card"),
        additional: Some(PaymentMethodDataResponse { details: doc("card ending 4242") }),
        with_billing: Some(PaymentMethodDataResponseWithBilling {
            payment_method_data: Some(PaymentMethodDataResponse { details: doc("card ending 4242") }),
            billing: Some(address("Paris", "FR")),
        }),
    }
}

fn redirect_form() -> RedirectForm {
    RedirectForm::Form {
        endpoint: "https://bank.example.com/3ds".to_string(),
        method: RedirectMethod::Post,
        form_fields: vec![("token".to_string(), "abc".to_string())],
    }
}

fn rich_payment() -> PaymentData<Authorize> {
    let mut data = payment_data();
    data.payment_intent.status = IntentStatus::Failed;
    data.payment_intent.description = some("two books");
    data.payment_intent.client_secret = some("pay_1_secret_x");
    data.payment_intent.amount_captured = Some(MinorUnit(1000));
    data.payment_intent.business_country = some("US");
    data.payment_intent.business_label = some("default");
    data.payment_intent.metadata = Some(doc("intent metadata"));
    data.payment_intent.connector_metadata =
        Some(Stored { document: doc("noon"), typed: None });
    data.payment_intent.order_details = Some(vec![
        Stored { document: doc("book one"), typed: None },
        Stored { document: doc("book two"), typed: None },
    ]);
    data.payment_intent.payment_confirm_source = Some(PaymentSource::Sdk);
    data.payment_intent.session_expiry = Some(at(23));
    data.payment_intent.fingerprint_id = some("fp_1");
    data.payment_intent.charges = Some(Stored {
        document: doc("charges"),
        typed: Some(PaymentCharges {
            charge_type: PaymentChargeType::StripeDirect,
            fees: MinorUnit(12),
            transfer_account_id: "acct_1".to_string(),
        }),
    });
    data.payment_attempt.status = AttemptStatus::Failure;
    data.payment_attempt.net_amount = MinorUnit(1300);
    data.payment_attempt.amount_capturable = MinorUnit(234);
    data.payment_attempt.business_sub_label = some("eu");
    data.payment_attempt.error_message = some("declined");
    data.payment_attempt.error_reason = some("insufficient funds");
    data.payment_attempt.error_code = some("E42");
    data.payment_attempt.surcharge_amount = Some(MinorUnit(50));
    data.payment_attempt.tax_amount = Some(MinorUnit(16));
    data.payment_attempt.charge_id = some("ch_1");
    data.payment_attempt.payment_method = Some(PaymentMethod::Card);
    data.payment_attempt.payment_method_data = Some(method_details());
    data.payment_attempt.connector_transaction_id = some("txn_1");
    data.payment_attempt.connector_response_reference_id = some("ref_1");
    data.payment_attempt.browser_info = Some(Stored { document: doc("browser"), typed: None });
    data.payment_method_data = Some(PaymentMethodData::Wallet(doc("wallet")));
    data.address = PaymentAddress::new(
        Some(address("London", "GB")),
        Some(address("Paris", "FR")),
        Some(address("Rome", "IT")),
    );
    data.refunds = vec![RefundResponse {
        refund_id: "ref_1".to_string(),
        payment_id: "pay_1".to_string(),
        amount: MinorUnit(10),
        currency: Currency::USD,
        reason: None,
        connector: "stripe".to_string(),
    }];
    data.payment_method_info = Some(PaymentMethodInfo {
        payment_method_id: "pm_1".to_string(),
        status: PaymentMethodStatus::Active,
        payment_method_billing_address: None,
    });
    data.ephemeral_key = Some(EphemeralKey {
        id: "eki_1".to_string(),
        merchant_id: "merchant_1".to_string(),
        customer_id: "cus_1".to_string(),
        created_at: 100,
        expires: 200,
        secret: "epk_secret".to_string(),
    });
    data.frm_message = Some(FraudCheck {
        frm_name: "signifyd".to_string(),
        frm_transaction_id: some("frm_1"),
        frm_transaction_type: FraudCheckType::PreFrm,
        frm_status: FraudCheckStatus::ManualReview,
        frm_score: Some(42),
        frm_reason: Some(doc("velocity")),
        frm_error: None,
    });
    data.authentication = Some({
        let mut record = authentication();
        record.cavv = some("AAABBB");
        record.authentication_status = AuthenticationStatus::Success;
        record
    });
    data
}

#[test]
fn response_takes_each_field_from_the_record_that_owns_it() {
    let response = body(rich_payment(), Some(customer()));
    assert_eq!(response.payment_id, "pay_1");
    assert_eq!(response.merchant_id, "merchant_1");
    assert_eq!(response.status, IntentStatus::Failed);
    assert_eq!(response.amount, MinorUnit(1234));
    assert_eq!(response.net_amount, MinorUnit(1300));
    assert_eq!(response.amount_capturable, MinorUnit(234));
    assert_eq!(response.amount_received, Some(MinorUnit(1000)));
    assert_eq!(response.connector, some("stripe"));
    assert_eq!(response.client_secret, some("pay_1_secret_x"));
    assert_eq!(response.created, Some(at(9)));
    assert_eq!(response.updated, Some(at(10)));
    assert_eq!(response.expires_on, Some(at(23)));
    assert_eq!(response.currency, "USD");
    assert_eq!(response.customer_id, some("cus_1"));
    assert_eq!(response.description, some("two books"));
    assert_eq!(response.email, some("ada@example.com"));
    assert_eq!(response.name, some("Ada Lovelace"));
    assert_eq!(response.phone, None);
    assert_eq!(response.shipping, Some(address("London", "GB")));
    assert_eq!(response.billing, Some(address("Paris", "FR")));
    assert_eq!(response.metadata, Some(doc("intent metadata")));
    assert_eq!(response.connector_metadata, Some(doc("noon")));
    assert_eq!(response.browser_info, Some(doc("browser")));
    assert_eq!(response.order_details, Some(vec![doc("book one"), doc("book two")]));
    assert_eq!(response.connector_transaction_id, some("txn_1"));
    assert_eq!(response.reference_id, some("ref_1"));
    assert_eq!(response.fingerprint, some("fp_1"));
    assert_eq!(response.attempt_count, 1);
    assert_eq!(response.capture_on, None);
    assert_eq!(response.payment_method, Some(PaymentMethod::Card));
    assert_eq!(response.payment_method_status, Some(PaymentMethodStatus::Active));
    assert_eq!(response.business_country, some("US"));
    assert_eq!(response.business_label, some("default"));
    assert_eq!(response.business_sub_label, some("eu"));
    assert_eq!(response.error_code, some("E42"));
    assert_eq!(response.next_action, None);
}

#[test]
fn response_derives_what_no_record_holds() {
    let response = body(rich_payment(), Some(customer()));
    assert_eq!(response.connector_label, some("stripe_US_default_eu"));
    assert_eq!(response.manual_retry_allowed, Some(true));
    assert_eq!(response.error_message, some("insufficient funds"));
    assert_eq!(
        response.surcharge_details,
        Some(RequestSurchargeDetails {
            surcharge_amount: MinorUnit(50),
            tax_amount: Some(MinorUnit(16)),
        })
    );
    assert_eq!(
        response.charges,
        Some(PaymentChargeResponse {
            charge_id: some("ch_1"),
            charge_type: PaymentChargeType::StripeDirect,
            application_fees: MinorUnit(12),
            transfer_account_id: "acct_1".to_string(),
        })
    );
    assert_eq!(
        response.payment_method_data,
        Some(PaymentMethodDataResponseWithBilling {
            payment_method_data: Some(PaymentMethodDataResponse { details: doc("card ending 4242") }),
            billing: Some(address("Rome", "IT")),
        })
    );
    assert_eq!(
        response.ephemeral_key,
        Some(EphemeralKeyCreateResponse {
            customer_id: "cus_1".to_string(),
            created_at: 100,
            expires: 200,
            secret: "epk_secret".to_string(),
        })
    );
    assert_eq!(
        response.frm_message,
        Some(FrmMessage {
            frm_name: "signifyd".to_string(),
            frm_transaction_id: some("frm_1"),
            frm_transaction_type: some("pre_frm"),
            frm_status: some("manual_review"),
            frm_score: Some(42),
            frm_reason: Some(doc("velocity")),
            frm_error: None,
        })
    );
    assert_eq!(
        response.external_authentication_details,
        Some(ExternalAuthenticationDetailsResponse {
            authentication_flow: some("challenge"),
            electronic_commerce_indicator: some("05"),
            status: AuthenticationStatus::Success,
            ds_transaction_id: some("ds_txn_1"),
            version: some("2.2.0"),
            error_code: None,
            error_message: None,
        })
    );
    assert_eq!(response.refunds.map(|list| list.len()), Some(1));
    assert_eq!(response.disputes, None);
    assert_eq!(response.incremental_authorizations, None);
    assert_eq!(response.attempts, None);
    assert_eq!(response.captures, None);
}

#[test]
fn unification_twice_gives_the_same_outcome() {
    let run = |operation| {
        payments_to_payments_response(
            rich_payment(),
            Some(vec![capture(1, CaptureStatus::Charged, Some("cap_1"))]),
            Some(customer()),
            AuthFlow::Client,
            BASE,
            &operation,
            &config(),
            Some(200),
            Some(1234),
            Some(true),
        )
    };
    let first = run(Operation::PaymentStatus);
    let second = run(Operation::PaymentStatus);
    assert!(first.is_ok());
    assert_eq!(first, second);
    assert_eq!(format!("{first:?}").into_bytes(), format!("{second:?}").into_bytes());

    let failing = || {
        let mut data = rich_payment();
        data.payment_attempt.currency = None;
        unify(data, None, Operation::PaymentStatus)
    };
    assert_eq!(failing(), failing());
}

#[test]
fn headers_go_beside_the_body_in_a_fixed_order() {
    let headers_of = |status: Option<u16>, source: Option<PaymentSource>, latency: Option<u128>| {
        let mut data = payment_data();
        data.payment_intent.payment_confirm_source = source;
        match payments_to_payments_response(
            data,
            None,
            None,
            AuthFlow::Merchant,
            BASE,
            &Operation::PaymentConfirm,
            &config(),
            status,
            latency,
            None,
        ) {
            Ok(ApplicationResponse::JsonWithHeaders((_, headers))) => headers,
            other => panic!("no body: {other:?}"),
        }
    };
    let pair = |name: &str, value: &str| (name.to_string(), value.to_string());
    assert_eq!(
        headers_of(Some(200), Some(PaymentSource::Sdk), Some(12345)),
        vec![
            pair("connector_http_status_code", "200"),
            pair("payment_confirm_source", "sdk"),
            pair("x-hs-latency", "12345"),
        ]
    );
    assert_eq!(headers_of(None, None, None), vec![]);
    assert_eq!(headers_of(None, None, Some(0)), vec![pair("x-hs-latency", "0")]);
    assert_eq!(
        headers_of(Some(503), None, Some(u128::MAX)),
        vec![
            pair("connector_http_status_code", "503"),
            pair("x-hs-latency", "340282366920938463463374607431768211455"),
        ]
    );
    assert_eq!(
        headers_of(None, Some(PaymentSource::MerchantServer), None),
        vec![pair("payment_confirm_source", "merchant_server")]
    );
    assert_eq!(
        headers_of(None, Some(PaymentSource::ExternalAuthenticator), None),
        vec![pair("payment_confirm_source", "external_authenticator")]
    );
}

#[test]
fn resumed_payment_with_redirect_data_is_answered_with_the_form() {
    let mut data = payment_data();
    data.payment_attempt.authentication_data =
        Some(Stored { document: doc("form"), typed: Some(redirect_form()) });
    data.payment_method_data = Some(PaymentMethodData::Reward);
    let outcome = unify(data, Some(customer()), Operation::PaymentStart);
    assert_eq!(
        outcome,
        Ok(ApplicationResponse::Form(Box::new(RedirectionFormData {
            redirect_form: redirect_form(),
            payment_method_data: Some(PaymentMethodData::Reward),
            amount: "12.34".to_string(),
            currency: "USD".to_string(),
        })))
    );
}

#[test]
fn redirect_form_is_only_for_the_resuming_operation() {
    let mut data = payment_data();
    data.payment_attempt.authentication_data =
        Some(Stored { document: doc("form"), typed: Some(redirect_form()) });
    let response = body(data, None);
    assert_eq!(
        response.next_action,
        Some(NextActionData::RedirectToUrl {
            redirect_to_url: "https://api.example.com/payments/redirect/pay_1/merchant_1/pay_1_1"
                .to_string(),
        })
    );
    let outcome = unify(payment_data(), None, Operation::PaymentStart);
    assert!(matches!(outcome, Ok(ApplicationResponse::JsonWithHeaders(_))));
}

#[test]
fn redirect_data_that_cannot_be_read_fail_the_resuming_operation() {
    let mut data = payment_data();
    data.payment_attempt.authentication_data = Some(Stored { document: doc("form"), typed: None });
    assert_eq!(
        unify(data, None, Operation::PaymentStart),
        Err(ApiErrorResponse::InternalServerError)
    );
}

#[test]
fn attempt_without_currency_has_no_response() {
    let mut data = payment_data();
    data.payment_attempt.currency = None;
    assert_eq!(
        unify(data, None, Operation::PaymentStatus),
        Err(ApiErrorResponse::MissingRequiredField { field_name: "currency" })
    );
}

#[test]
fn amount_that_cannot_be_displayed_has_no_response() {
    for amount in [-1, 4294967296] {
        let mut data = payment_data();
        data.payment_attempt.amount = MinorUnit(amount);
        assert_eq!(
            unify(data, None, Operation::PaymentStatus),
            Err(ApiErrorResponse::InvalidDataValue { field_name: "amount" })
        );
    }
}

#[test]
fn method_details_are_read_strictly_where_they_are_due() {
    let unreadable = AttemptPaymentMethodData { document: doc("?"), additional: None, with_billing: None };
    let mut data = payment_data();
    data.payment_method_data = Some(PaymentMethodData::Wallet(doc("wallet")));
    data.payment_attempt.payment_method_data = Some(unreadable.clone());
    assert_eq!(
        unify(data, None, Operation::PaymentStatus),
        Err(ApiErrorResponse::InvalidDataValue { field_name: "payment_method_data" })
    );

    let mut data = payment_data();
    data.payment_method_data = Some(PaymentMethodData::NetworkToken(doc("token")));
    data.payment_attempt.payment_method_data = Some(unreadable.clone());
    assert_eq!(body(data, None).payment_method_data, None);

    let mut data = payment_data();
    data.payment_attempt.payment_method_data = Some(unreadable);
    assert_eq!(body(data, None).payment_method_data, None);

    let mut data = payment_data();
    data.payment_method_data = Some(PaymentMethodData::NetworkToken(doc("token")));
    data.payment_attempt.payment_method_data = Some(method_details());
    data.address = PaymentAddress::new(None, None, Some(address("Rome", "IT")));
    assert_eq!(
        body(data, None).payment_method_data,
        Some(PaymentMethodDataResponseWithBilling {
            payment_method_data: None,
            billing: Some(address("Rome", "IT")),
        })
    );
}

#[test]
fn split_payment_instructions_are_read_strictly() {
    let mut data = payment_data();
    data.payment_intent.charges = Some(Stored { document: doc("?"), typed: None });
    assert_eq!(
        unify(data, None, Operation::PaymentStatus),
        Err(ApiErrorResponse::InternalServerError)
    );
}

#[test]
fn failure_of_the_next_step_fails_the_response() {
    let mut data = payment_data();
    data.payment_attempt.connector = None;
    data.authentication = Some(authentication());
    assert_eq!(
        unify(data, None, Operation::PaymentStatus),
        Err(ApiErrorResponse::MissingRequiredField { field_name: "connector" })
    );
}

#[test]
fn customer_details_come_from_the_store() {
    let response = body(payment_data(), Some(customer()));
    assert_eq!(
        response.customer,
        Some(CustomerDetailsResponse {
            id: some("cus_1"),
            name: some("Ada Lovelace"),
            email: some("ada@example.com"),
            phone: None,
            phone_country_code: some("+44"),
        })
    );
    assert_eq!(body(payment_data(), None).customer, None);
}

#[test]
fn snapshot_fills_the_gaps_of_the_store() {
    let snapshot = CustomerData {
        name: some("A. Lovelace"),
        email: some("old@example.com"),
        phone: some("5550100"),
        phone_country_code: some("+1"),
    };
    let mut data = payment_data();
    data.payment_intent.customer_details =
        Some(Stored { document: doc("snapshot"), typed: Some(snapshot.clone()) });
    assert_eq!(
        body(data, Some(customer())).customer,
        Some(CustomerDetailsResponse {
            id: some("cus_1"),
            name: some("Ada Lovelace"),
            email: some("ada@example.com"),
            phone: some("5550100"),
            phone_country_code: some("+44"),
        })
    );

    let mut data = payment_data();
    data.payment_intent.customer_details =
        Some(Stored { document: doc("snapshot"), typed: Some(snapshot) });
    assert_eq!(
        body(data, None).customer,
        Some(CustomerDetailsResponse {
            id: None,
            name: some("A. Lovelace"),
            email: some("old@example.com"),
            phone: some("5550100"),
            phone_country_code: some("+1"),
        })
    );
}

#[test]
fn snapshot_that_cannot_be_read_falls_back_to_the_store() {
    let mut data = payment_data();
    data.payment_intent.customer_details = Some(Stored { document: doc("?"), typed: None });
    assert_eq!(
        body(data, Some(customer())).customer,
        Some(CustomerDetailsResponse {
            id: some("cus_1"),
            name: some("Ada Lovelace"),
            email: some("ada@example.com"),
            phone: None,
            phone_country_code: some("+44"),
        })
    );
    let mut data = payment_data();
    data.payment_intent.customer_details = Some(Stored { document: doc("?"), typed: None });
    assert_eq!(body(data, None).customer, None);
}

#[test]
fn captures_are_listed_in_their_client_form() {
    let mut failed = capture(2, CaptureStatus::Failed, None);
    failed.error_code = some("E7");
    failed.error_message = some("expired");
    failed.error_reason = some("authorisation expired");
    let outcome = payments_to_payments_response(
        payment_data(),
        Some(vec![capture(1, CaptureStatus::Charged, Some("cap_1")), failed]),
        None,
        AuthFlow::Merchant,
        BASE,
        &Operation::PaymentStatus,
        &config(),
        None,
        None,
        None,
    );
    let response = match outcome {
        Ok(ApplicationResponse::JsonWithHeaders((response, _))) => response,
        other => panic!("no body: {other:?}"),
    };
    assert_eq!(
        response.captures,
        Some(vec![
            CaptureResponse {
                capture_id: "pay_1_1_1".to_string(),
                status: CaptureStatus::Charged,
                amount: MinorUnit(100),
                currency: Some(Currency::USD),
                connector: "stripe".to_string(),
                authorized_attempt_id: "pay_1_1".to_string(),
                connector_capture_id: some("cap_1"),
                capture_sequence: 1,
                error_message: None,
                error_code: None,
                error_reason: None,
                reference_id: some("ref"),
            },
            CaptureResponse {
                capture_id: "pay_1_1_2".to_string(),
                status: CaptureStatus::Failed,
                amount: MinorUnit(100),
                currency: Some(Currency::USD),
                connector: "stripe".to_string(),
                authorized_attempt_id: "pay_1_1".to_string(),
                connector_capture_id: None,
                capture_sequence: 2,
                error_message: some("expired"),
                error_code: some("E7"),
                error_reason: some("authorisation expired"),
                reference_id: some("ref"),
            },
        ])
    );
}

#[test]
fn manual_retry_depends_on_both_states_and_the_merchant() {
    let retry = |intent_status, attempt_status, merchant: &str| {
        let mut data = payment_data();
        data.payment_intent.status = intent_status;
        data.payment_attempt.status = attempt_status;
        data.payment_attempt.merchant_id = merchant.to_string();
        body(data, None).manual_retry_allowed
    };
    assert_eq!(retry(IntentStatus::Failed, AttemptStatus::Failure, "merchant_1"), Some(true));
    assert_eq!(retry(IntentStatus::Failed, AttemptStatus::Voided, "merchant_1"), Some(true));
    assert_eq!(retry(IntentStatus::Failed, AttemptStatus::Failure, "merchant_9"), Some(false));
    assert_eq!(retry(IntentStatus::Failed, AttemptStatus::Pending, "merchant_1"), Some(false));
    assert_eq!(retry(IntentStatus::Succeeded, AttemptStatus::Charged, "merchant_1"), Some(false));
    assert_eq!(retry(IntentStatus::Cancelled, AttemptStatus::Failure, "merchant_1"), Some(false));
    assert_eq!(retry(IntentStatus::Processing, AttemptStatus::Failure, "merchant_1"), None);
    assert_eq!(retry(IntentStatus::RequiresCapture, AttemptStatus::Authorized, "merchant_1"), None);
}

#[test]
fn connector_label_needs_country_and_label() {
    let label = |country: Option<&str>, label: Option<&str>, sub: Option<&str>, connector: Option<&str>| {
        let mut data = payment_data();
        data.payment_intent.business_country = country.map(str::to_string);
        data.payment_intent.business_label = label.map(str::to_string);
        data.payment_attempt.business_sub_label = sub.map(str::to_string);
        data.payment_attempt.connector = connector.map(str::to_string);
        body(data, None).connector_label
    };
    assert_eq!(label(Some("US"), Some("default"), None, Some("adyen")), some("adyen_US_default"));
    assert_eq!(label(Some("US"), Some("default"), Some("b"), Some("adyen")), some("adyen_US_default_b"));
    assert_eq!(label(None, Some("default"), Some("b"), Some("adyen")), None);
    assert_eq!(label(Some("US"), None, Some("b"), Some("adyen")), None);
    assert_eq!(label(Some("US"), Some("default"), Some("b"), None), None);
}

#[test]
fn tax_on_the_order_prefers_the_attempt() {
    let tax = |attempt_tax: Option<i64>, details: Option<TaxDetails>| {
        let mut data = payment_data();
        data.payment_attempt.order_tax_amount = attempt_tax.map(MinorUnit);
        data.payment_intent.tax_details = details;
        body(data, None).order_tax_amount
    };
    let both = TaxDetails {
        default: Some(DefaultTax { order_tax_amount: MinorUnit(3) }),
        payment_method_type: Some(PaymentMethodTypeTax {
            order_tax_amount: MinorUnit(2),
            pmt: router::enums::PaymentMethodType::Klarna,
        }),
    };
    let default_only =
        TaxDetails { default: Some(DefaultTax { order_tax_amount: MinorUnit(3) }), payment_method_type: None };
    assert_eq!(tax(Some(1), Some(both)), Some(MinorUnit(1)));
    assert_eq!(tax(None, Some(both)), Some(MinorUnit(2)));
    assert_eq!(tax(None, Some(default_only)), Some(MinorUnit(3)));
    assert_eq!(tax(None, Some(TaxDetails { default: None, payment_method_type: None })), None);
    assert_eq!(tax(None, None), None);
}

#[test]
fn error_message_prefers_the_reason() {
    let mut data = payment_data();
    data.payment_attempt.error_message = some("declined");
    assert_eq!(body(data, None).error_message, some("declined"));
    let mut data = payment_data();
    data.payment_attempt.error_reason = some("stolen card");
    assert_eq!(body(data, None).error_message, some("stolen card"));
}

#[test]
fn mandate_is_shown_in_its_client_form() {
    let amount = domain::MandateAmountData {
        amount: MinorUnit(5000),
        currency: Currency::EUR,
        start_date: Some(at(1)),
        end_date: None,
        metadata: Some(doc("m")),
    };
    let shown = MandateAmountData {
        amount: MinorUnit(5000),
        currency: Currency::EUR,
        start_date: Some(at(1)),
        end_date: None,
        metadata: Some(doc("m")),
    };
    let mut data = payment_data();
    data.setup_mandate = Some(domain::MandateData {
        update_mandate_id: some("man_0"),
        customer_acceptance: Some(domain::CustomerAcceptance {
            acceptance_type: AcceptanceType::Online,
            accepted_at: Some(at(3)),
            online: Some(domain::OnlineMandate {
                ip_address: some("203.0.113.7"),
                user_agent: "curl/8".to_string(),
            }),
        }),
        mandate_type: Some(domain::MandateDataType::MultiUse(Some(amount.clone()))),
    });
    assert_eq!(
        body(data, None).mandate_data,
        Some(MandateData {
            update_mandate_id: some("man_0"),
            customer_acceptance: Some(CustomerAcceptance {
                acceptance_type: AcceptanceType::Online,
                accepted_at: Some(at(3)),
                online: Some(OnlineMandate {
                    ip_address: some("203.0.113.7"),
                    user_agent: "curl/8".to_string(),
                }),
            }),
            mandate_type: Some(MandateType::MultiUse(Some(shown.clone()))),
        })
    );

    let mut data = payment_data();
    data.setup_mandate = Some(domain::MandateData {
        update_mandate_id: None,
        customer_acceptance: Some(domain::CustomerAcceptance {
            acceptance_type: AcceptanceType::Offline,
            accepted_at: None,
            online: None,
        }),
        mandate_type: Some(domain::MandateDataType::SingleUse(amount)),
    });
    assert_eq!(
        body(data, None).mandate_data,
        Some(MandateData {
            update_mandate_id: None,
            customer_acceptance: Some(CustomerAcceptance {
                acceptance_type: AcceptanceType::Offline,
                accepted_at: None,
                online: None,
            }),
            mandate_type: Some(MandateType::SingleUse(shown)),
        })
    );

    let mut data = payment_data();
    data.setup_mandate = Some(domain::MandateData {
        update_mandate_id: None,
        customer_acceptance: None,
        mandate_type: Some(domain::MandateDataType::MultiUse(None)),
    });
    assert_eq!(
        body(data, None).mandate_data,
        Some(MandateData {
            update_mandate_id: None,
            customer_acceptance: None,
            mandate_type: Some(MandateType::MultiUse(None)),
        })
    );
}

#[test]
fn short_form_is_made_of_intent_and_attempt_alone() {
    let mut pi = intent();
    pi.currency = Some(Currency::EUR);
    pi.customer_id = some("cus_1");
    pi.customer_details = Some(Stored {
        document: doc("snapshot"),
        typed: Some(CustomerData {
            name: some("Ada"),
            email: None,
            phone: some("5550100"),
            phone_country_code: None,
        }),
    });
    pi.billing_details = Some(Stored { document: doc("b"), typed: Some(address("Paris", "FR")) });
    pi.shipping_details = Some(Stored { document: doc("s"), typed: None });
    pi.order_details = Some(vec![Stored { document: doc("book"), typed: None }]);
    let mut pa = attempt();
    pa.net_amount = MinorUnit(1300);
    pa.payment_method_data = Some(method_details());
    pa.error_message = some("declined");
    let response = PaymentsResponse::foreign_from((pi, pa));
    assert_eq!(response.payment_id, "pay_1");
    assert_eq!(response.currency, "EUR");
    assert_eq!(response.amount, MinorUnit(1234));
    assert_eq!(response.net_amount, MinorUnit(1300));
    assert_eq!(response.customer_id, some("cus_1"));
    assert_eq!(
        response.customer,
        Some(CustomerDetailsResponse {
            id: some("cus_1"),
            name: some("Ada"),
            email: None,
            phone: some("5550100"),
            phone_country_code: None,
        })
    );
    assert_eq!(response.billing, Some(address("Paris", "FR")));
    assert_eq!(response.shipping, None);
    assert_eq!(response.order_details, Some(vec![doc("book")]));
    assert_eq!(response.payment_method_data, method_details().with_billing);
    assert_eq!(response.connector, some("stripe"));
    assert_eq!(response.created, Some(at(9)));
    assert_eq!(response.updated, None);
    assert_eq!(response.error_message, None);
    assert_eq!(response.next_action, None);
    assert_eq!(response.manual_retry_allowed, None);
}

#[test]
fn short_form_of_an_intent_without_currency_has_an_empty_currency() {
    let mut pi = intent();
    pi.customer_details = Some(Stored { document: doc("?"), typed: None });
    let response = PaymentsResponse::foreign_from((pi, attempt()));
    assert_eq!(response.currency, "");
    assert_eq!(response.customer, None);
}

fn generate<T: ToResponse<Authorize>>(
    data: PaymentData<Authorize>,
    customer: Option<Customer>,
) -> Result<ApplicationResponse<T>, ApiErrorResponse> {
    T::generate_response(
        data,
        customer,
        AuthFlow::Merchant,
        BASE,
        Operation::PaymentStatus,
        &config(),
        Some(200),
        Some(5),
        None,
    )
}

#[test]
fn generated_payment_response_lists_the_captures_it_was_asked_to_expand() {
    let captures = || MultipleCaptureData {
        all_captures: vec![
            capture(1, CaptureStatus::Charged, Some("cap_1")),
            capture(2, CaptureStatus::Pending, Some("cap_2")),
        ],
        latest_capture: capture(2, CaptureStatus::Pending, Some("cap_2")),
        expand_captures: Some(true),
    };
    let listed = |capture_data: Option<MultipleCaptureData>| {
        let mut data = payment_data();
        data.multiple_capture_data = capture_data;
        match generate::<PaymentsResponse>(data, None) {
            Ok(ApplicationResponse::JsonWithHeaders((response, headers))) => {
                assert_eq!(headers.len(), 2);
                response.captures.map(|list| {
                    list.into_iter().map(|c| c.capture_id).collect::<Vec<_>>()
                })
            }
            other => panic!("no body: {other:?}"),
        }
    };
    assert_eq!(
        listed(Some(captures())),
        Some(vec!["pay_1_1_1".to_string(), "pay_1_1_2".to_string()])
    );
    let mut folded = captures();
    folded.expand_captures = Some(false);
    assert_eq!(listed(Some(folded)), None);
    let mut unsaid = captures();
    unsaid.expand_captures = None;
    assert_eq!(listed(Some(unsaid)), None);
    assert_eq!(listed(None), None);
}

#[test]
fn session_response_needs_the_client_secret() {
    let mut data = payment_data();
    data.sessions_token = vec![SessionToken { connector: "stripe".to_string(), token: doc("t") }];
    assert_eq!(
        generate::<PaymentsSessionResponse>(data, None),
        Err(ApiErrorResponse::MissingRequiredField { field_name: "client_secret" })
    );

    let mut data = payment_data();
    data.payment_intent.client_secret = some("pay_1_secret_x");
    data.sessions_token = vec![SessionToken { connector: "stripe".to_string(), token: doc("t") }];
    assert_eq!(
        generate::<PaymentsSessionResponse>(data, None),
        Ok(ApplicationResponse::JsonWithHeaders((
            PaymentsSessionResponse {
                payment_id: "pay_1".to_string(),
                client_secret: "pay_1_secret_x".to_string(),
                session_token: vec![SessionToken { connector: "stripe".to_string(), token: doc("t") }],
            },
            vec![],
        )))
    );
}

#[test]
fn tax_response_adds_shipping_and_tax_to_the_amount() {
    let mut data = payment_data();
    data.payment_intent.shipping_cost = Some(MinorUnit(500));
    data.payment_intent.tax_details = Some(TaxDetails {
        default: Some(DefaultTax { order_tax_amount: MinorUnit(66) }),
        payment_method_type: None,
    });
    assert_eq!(
        generate::<PaymentsDynamicTaxCalculationResponse>(data, None),
        Ok(ApplicationResponse::JsonWithHeaders((
            PaymentsDynamicTaxCalculationResponse {
                payment_id: "pay_1".to_string(),
                net_amount: MinorUnit(1800),
                order_tax_amount: Some(MinorUnit(66)),
                shipping_cost: Some(MinorUnit(500)),
                display_amount: DisplayAmountOnSdk {
                    net_amount: "18".to_string(),
                    order_tax_amount: some("0.66"),
                    shipping_cost: some("5"),
                },
            },
            vec![],
        )))
    );

    assert_eq!(
        generate::<PaymentsDynamicTaxCalculationResponse>(payment_data(), None),
        Ok(ApplicationResponse::JsonWithHeaders((
            PaymentsDynamicTaxCalculationResponse {
                payment_id: "pay_1".to_string(),
                net_amount: MinorUnit(1234),
                order_tax_amount: None,
                shipping_cost: None,
                display_amount: DisplayAmountOnSdk {
                    net_amount: "12.34".to_string(),
                    order_tax_amount: None,
                    shipping_cost: None,
                },
            },
            vec![],
        )))
    );
}

#[test]
fn tax_response_needs_currency_and_displayable_amounts() {
    let mut data = payment_data();
    data.payment_attempt.currency = None;
    assert_eq!(
        generate::<PaymentsDynamicTaxCalculationResponse>(data, None),
        Err(ApiErrorResponse::MissingRequiredField { field_name: "currency" })
    );

    let mut data = payment_data();
    data.payment_intent.amount = MinorUnit(-5);
    assert_eq!(
        generate::<PaymentsDynamicTaxCalculationResponse>(data, None),
        Err(ApiErrorResponse::PreconditionFailed {
            message: "Failed to convert net_amount to base unit"
        })
    );
}

#[test]
fn display_amounts_fail_on_the_first_amount_that_cannot_be_shown() {
    let too_large = MinorUnit(4294967296);
    assert_eq!(
        DisplayAmountOnSdk::foreign_try_from((too_large, Some(too_large), Some(too_large), Currency::USD)),
        Err(ApiErrorResponse::PreconditionFailed {
            message: "Failed to convert net_amount to base unit"
        })
    );
    assert_eq!(
        DisplayAmountOnSdk::foreign_try_from((MinorUnit(1), Some(too_large), Some(too_large), Currency::USD)),
        Err(ApiErrorResponse::PreconditionFailed {
            message: "Failed to convert shipping_cost to base unit"
        })
    );
    assert_eq!(
        DisplayAmountOnSdk::foreign_try_from((MinorUnit(1), None, Some(MinorUnit(-1)), Currency::USD)),
        Err(ApiErrorResponse::PreconditionFailed {
            message: "Failed to convert order_tax_amount to base unit"
        })
    );
    assert_eq!(
        DisplayAmountOnSdk::foreign_try_from((MinorUnit(1500), Some(MinorUnit(250)), None, Currency::KWD)),
        Ok(DisplayAmountOnSdk {
            net_amount: "1.5".to_string(),
            order_tax_amount: None,
            shipping_cost: some("0.25"),
        })
    );
}

#[test]
fn verify_response_shows_customer_and_method() {
    let mut data = payment_data();
    data.payment_intent.client_secret = some("pay_1_secret_x");
    data.payment_attempt.payment_method = Some(PaymentMethod::Card);
    data.payment_attempt.payment_method_data = Some(method_details());
    data.payment_attempt.error_code = some("E1");
    data.payment_attempt.error_message = some("declined");
    data.mandate_id = Some(MandateIds { mandate_id: some("man_1"), connector_mandate_id: None });
    data.token = some("token_1");
    assert_eq!(
        generate::<VerifyResponse>(data, Some(customer())),
        Ok(ApplicationResponse::JsonWithHeaders((
            VerifyResponse {
                verify_id: some("pay_1"),
                merchant_id: some("merchant_1"),
                client_secret: some("pay_1_secret_x"),
                customer_id: some("cus_1"),
                email: some("ada@example.com"),
                name: some("Ada Lovelace"),
                phone: None,
                mandate_id: some("man_1"),
                payment_method: Some(PaymentMethod::Card),
                payment_method_data: Some(PaymentMethodDataResponse {
                    details: doc("card ending 4242")
                }),
                payment_token: some("token_1"),
                error_code: some("E1"),
                error_message: some("declined"),
            },
            vec![],
        )))
    );
}

#[test]
fn verify_response_reads_the_method_details_strictly() {
    let mut data = payment_data();
    data.payment_attempt.payment_method_data =
        Some(AttemptPaymentMethodData { document: doc("?"), additional: None, with_billing: None });
    assert_eq!(
        generate::<VerifyResponse>(data, None),
        Err(ApiErrorResponse::InvalidDataValue { field_name: "payment_method_data" })
    );
}

fn both_readings() -> AttemptMetadata {
    let mut metadata = AttemptMetadata::new(doc("steps"));
    metadata.bank_transfer_next_steps = Some(BankTransferNextStepsData {
        bank_transfer_instructions: doc("pay to DE00 0000"),
        receiver: None,
    });
    metadata.voucher_next_steps = Some(VoucherNextStepData {
        expires_at: None,
        reference: "ref_77".to_string(),
        download_url: None,
        instructions_url: None,
    });
    metadata
}

fn bank_transfer_action() -> Option<NextActionData> {
    Some(NextActionData::DisplayBankTransferInformation {
        bank_transfer_steps_and_charges_details: BankTransferNextStepsData {
            bank_transfer_instructions: doc("pay to DE00 0000"),
            receiver: None,
        },
    })
}

#[test]
fn response_shows_the_bank_transfer_where_the_metadata_read_both_ways() {
    for method in [Some(PaymentMethod::Voucher), Some(PaymentMethod::BankTransfer), None] {
        let mut data = payment_data();
        data.payment_attempt.payment_method = method;
        data.payment_attempt.connector_metadata = Some(both_readings());
        assert_eq!(body(data, None).next_action, bank_transfer_action());
    }
}

#[test]
fn response_shows_the_bank_transfer_though_a_challenge_would_miss_its_connector() {
    let mut data = payment_data();
    data.payment_attempt.payment_method = Some(PaymentMethod::BankTransfer);
    data.payment_attempt.connector_metadata = Some(both_readings());
    data.payment_attempt.connector = None;
    data.authentication = Some(authentication());
    assert_eq!(body(data, None).next_action, bank_transfer_action());
}
