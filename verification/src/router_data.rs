//! Construction of the canonical transformation unit of an operation.

use std::marker::PhantomData;
use vstd::prelude::*;
use vstd::string::*;

use crate::api::MinorUnit;
use crate::customer::Customer;
use crate::document::clone_opt_document;
use crate::domain::{MerchantAccount, MerchantConnectorAccountType, PaymentAddress};
use crate::enums::{AuthenticationType, Connector, PaymentMethod, PaymentMethodType};
use crate::errors::ApiErrorResponse;
use crate::helpers::{decide_apple_pay_flow, get_connector_request_reference_id, sends_payment_id};
use crate::storage::{PaymentAttempt, PaymentMethodInfo};
use crate::text::clone_opt_string;
use crate::document::typed_of;
use crate::transformers::{customer_id, FlowRequest, PaymentAdditionalData};
use crate::types::{
    PaymentData, PaymentMethodToken, PaymentsResponseData, ResponseId, RouterData, SessionState,
};

verus! {

/// The answer slot of a unit before its request is sent: it names the
/// transaction that the attempt already has, if any, and nothing else.
pub open spec fn placeholder_response(attempt: PaymentAttempt) -> PaymentsResponseData {
    PaymentsResponseData::TransactionResponse {
        resource_id: match attempt.connector_transaction_id {
            Some(id) => ResponseId::ConnectorTransactionId(id),
            None => ResponseId::NoResponseId,
        },
        redirection_data: None,
        mandate_reference: None,
        connector_metadata: None,
        network_txn_id: None,
        connector_response_reference_id: None,
        incremental_authorization_allowed: None,
        charge_id: None,
    }
}

fn build_placeholder_response(attempt: &PaymentAttempt) -> (r: PaymentsResponseData)
    ensures
        r == placeholder_response(*attempt),
{
    PaymentsResponseData::TransactionResponse {
        resource_id: match &attempt.connector_transaction_id {
            Some(id) => ResponseId::ConnectorTransactionId(id.clone()),
            None => ResponseId::NoResponseId,
        },
        redirection_data: None,
        mandate_reference: None,
        connector_metadata: None,
        network_txn_id: None,
        connector_response_reference_id: None,
        incremental_authorization_allowed: None,
        charge_id: None,
    }
}

/// Whether the encoded form of the merchant recipient data is given but failed to encode.
pub open spec fn recipient_data_unencodable<E>(
    merchant_recipient_data: Option<Result<serde_json::Value, E>>,
) -> bool {
    merchant_recipient_data is Some && merchant_recipient_data->Some_0 is Err
}

/// The connector metadata of a unit: the merchant recipient data where
/// they are given, else the metadata of the merchant's connector account.
pub open spec fn unit_connector_meta_data<E>(
    merchant_recipient_data: Option<Result<serde_json::Value, E>>,
    account: MerchantConnectorAccountType,
) -> Option<serde_json::Value> {
    match merchant_recipient_data {
        Some(Ok(value)) => Some(value),
        _ => account.metadata,
    }
}

/// Whether `connector` is in `list`.
pub open spec fn lists_connector(list: Seq<Connector>, connector: Connector) -> bool {
    exists|i: int| 0 <= i < list.len() && list[i] == connector
}

fn contains_connector(list: &Vec<Connector>, connector: Connector) -> (r: bool)
    ensures
        r == lists_connector(list@, connector),
{
    let mut i: usize = 0;
    while i < list.len()
        invariant
            i <= list.len(),
            forall|j: int| 0 <= j < i ==> list@[j] != connector,
        decreases list.len() - i,
    {
        if list[i] == connector {
            return true;
        }
        i += 1;
    }
    false
}

/// `connector_api_version_{connector}`.
pub open spec fn api_version_key(connector_id: Seq<char>) -> Seq<char> {
    "connector_api_version_"@ + connector_id
}

/// The configuration key under which an API version override for the
/// connector is to be looked up, for the connectors that support one and
/// for no others.
pub fn connector_api_version_key(state: &SessionState, connector_id: &str) -> (r: Option<String>)
    ensures
        match Connector::named(connector_id@) {
            Some(connector) => if lists_connector(
                state.conf.multiple_api_version_supported_connectors@,
                connector,
            ) {
                r is Some && r->Some_0@ == api_version_key(connector_id@)
            } else {
                r is None
            },
            None => r is None,
        },
{
    match Connector::from_name(connector_id) {
        Some(connector) => {
            if contains_connector(&state.conf.multiple_api_version_supported_connectors, connector) {
                let mut key = String::from_str("connector_api_version_");
                key.append(connector_id);
                Some(key)
            } else {
                None
            }
        },
        None => None,
    }
}

/// Whether the billing address stored with the payment method is there but cannot be read.
pub open spec fn stored_billing_unreadable(info: Option<PaymentMethodInfo>) -> bool {
    info is Some && info->Some_0.payment_method_billing_address is Some
        && info->Some_0.payment_method_billing_address->Some_0.typed is None
}

/// The addresses of a unit: those of the payment, with the billing
/// address stored with the payment method taken into the unified one.
pub open spec fn unit_address(address: PaymentAddress, info: Option<PaymentMethodInfo>) -> PaymentAddress {
    match info {
        Some(i) => PaymentAddress {
            shipping: address.shipping,
            billing: address.billing,
            unified_payment_method_billing: address.unified_billing_spec(
                typed_of(i.payment_method_billing_address),
            ),
            payment_method_billing: address.payment_method_billing,
        },
        None => address,
    }
}

/// Why the merchant's connector account, the attempt or the connector name
/// rule a unit out, if so. The checks run in this order: the account is
/// not disabled; its credentials can be read; the attempt has a payment
/// method; a connector is configured under the given name.
pub open spec fn connector_context_failure<F>(
    payment_data: PaymentData<F>,
    connector_id: Seq<char>,
    account: MerchantConnectorAccountType,
) -> Option<ApiErrorResponse> {
    if account.is_disabled_spec() {
        Some(ApiErrorResponse::MerchantConnectorAccountDisabled)
    } else if account.connector_account_details.typed is None {
        Some(ApiErrorResponse::InternalServerError)
    } else if payment_data.payment_attempt.payment_method is None {
        Some(ApiErrorResponse::MissingRequiredField { field_name: "payment_method_type" })
    } else if Connector::named(connector_id) is None {
        Some(ApiErrorResponse::InvalidDataValue { field_name: "connector" })
    } else {
        None
    }
}

/// Why no unit can be constructed before the request itself is built, if
/// so. The checks run in this order: those of the connector context; the
/// billing address stored with the payment method can be read; the
/// merchant recipient data, where given, were encoded.
pub open spec fn unit_failure<F, E>(
    payment_data: PaymentData<F>,
    connector_id: Seq<char>,
    account: MerchantConnectorAccountType,
    merchant_recipient_data: Option<Result<serde_json::Value, E>>,
) -> Option<ApiErrorResponse> {
    if connector_context_failure(payment_data, connector_id, account) is Some {
        connector_context_failure(payment_data, connector_id, account)
    } else if stored_billing_unreadable(payment_data.payment_method_info) {
        Some(ApiErrorResponse::InternalServerError)
    } else if recipient_data_unencodable(merchant_recipient_data) {
        Some(ApiErrorResponse::InternalServerError)
    } else {
        None
    }
}

/// Checks the connector context of a unit: what must hold before the
/// configuration store is asked for anything.
pub fn check_connector_context<F>(
    payment_data: &PaymentData<F>,
    connector_id: &str,
    merchant_connector_account: &MerchantConnectorAccountType,
) -> (r: Result<(), ApiErrorResponse>)
    ensures
        match r {
            Ok(_) => connector_context_failure(
                *payment_data,
                connector_id@,
                *merchant_connector_account,
            ) is None,
            Err(e) => connector_context_failure(
                *payment_data,
                connector_id@,
                *merchant_connector_account,
            ) == Some(e),
        },
{
    if merchant_connector_account.is_disabled() {
        return Err(ApiErrorResponse::MerchantConnectorAccountDisabled);
    }
    if merchant_connector_account.connector_account_details.typed.is_none() {
        return Err(ApiErrorResponse::InternalServerError);
    }
    if payment_data.payment_attempt.payment_method.is_none() {
        return Err(ApiErrorResponse::MissingRequiredField { field_name: "payment_method_type" });
    }
    if Connector::from_name(connector_id).is_none() {
        return Err(ApiErrorResponse::InvalidDataValue { field_name: "connector" });
    }
    Ok(())
}

fn is_billing_unreadable(info: &Option<PaymentMethodInfo>) -> (r: bool)
    ensures
        r == stored_billing_unreadable(*info),
{
    match info {
        Some(i) => match &i.payment_method_billing_address {
            Some(stored) => stored.typed.is_none(),
            None => false,
        },
        None => false,
    }
}

fn is_unencodable<E>(merchant_recipient_data: &Option<Result<serde_json::Value, E>>) -> (r: bool)
    ensures
        r == recipient_data_unencodable(*merchant_recipient_data),
{
    match merchant_recipient_data {
        Some(Err(_)) => true,
        _ => false,
    }
}

/// Checks everything that rules a unit out before its request is built.
pub fn check_unit<F, E>(
    payment_data: &PaymentData<F>,
    connector_id: &str,
    merchant_connector_account: &MerchantConnectorAccountType,
    merchant_recipient_data: &Option<Result<serde_json::Value, E>>,
) -> (r: Result<(), ApiErrorResponse>)
    ensures
        match r {
            Ok(_) => unit_failure(
                *payment_data,
                connector_id@,
                *merchant_connector_account,
                *merchant_recipient_data,
            ) is None,
            Err(e) => unit_failure(
                *payment_data,
                connector_id@,
                *merchant_connector_account,
                *merchant_recipient_data,
            ) == Some(e),
        },
{
    check_connector_context(payment_data, connector_id, merchant_connector_account)?;
    if is_billing_unreadable(&payment_data.payment_method_info) {
        return Err(ApiErrorResponse::InternalServerError);
    }
    if is_unencodable(merchant_recipient_data) {
        return Err(ApiErrorResponse::InternalServerError);
    }
    Ok(())
}

/// The records from which the request of the unit is built.
pub open spec fn builder_input<'a, F>(
    state: &'a SessionState,
    payment_data: PaymentData<F>,
    connector_id: &'a str,
    customer: &'a Option<Customer>,
) -> PaymentAdditionalData<'a, F> {
    PaymentAdditionalData {
        router_base_url: state.base_url,
        connector_name: connector_id,
        payment_data,
        customer_data: customer,
    }
}

/// The API version under which the connector is addressed: the
/// configured override for the connectors that support one, none otherwise.
pub open spec fn unit_api_version(
    state: SessionState,
    connector_id: Seq<char>,
    configured: Option<String>,
) -> Option<String> {
    if Connector::named(connector_id) is Some && lists_connector(
        state.conf.multiple_api_version_supported_connectors@,
        Connector::named(connector_id)->Some_0,
    ) {
        configured
    } else {
        None
    }
}

/// The token of the payment method, where the payment has one.
pub open spec fn unit_payment_method_token(pm_token: Option<String>) -> Option<PaymentMethodToken> {
    match pm_token {
        Some(token) => Some(PaymentMethodToken::Token(token)),
        None => None,
    }
}

/// The authentication type of an attempt, or the default one where it names none.
pub open spec fn unit_auth_type(attempt: PaymentAttempt) -> AuthenticationType {
    match attempt.authentication_type {
        Some(t) => t,
        None => AuthenticationType::NoThreeDs,
    }
}

/// The captured amount as a plain number.
pub open spec fn captured_amount(amount: Option<MinorUnit>) -> Option<i64> {
    match amount {
        Some(a) => Some(a.0),
        None => None,
    }
}

/// Whether every field of the unit that no operation fills before
/// dispatch is empty.
pub open spec fn is_fresh_unit<Flow, T>(unit: RouterData<Flow, T, PaymentsResponseData>) -> bool {
    &&& unit.access_token is None
    &&& unit.session_token is None
    &&& unit.reference_id is None
    &&& unit.payment_method_balance is None
    &&& unit.connector_http_status_code is None
    &&& unit.external_latency is None
    &&& unit.frm_metadata is None
    &&& unit.refund_id is None
    &&& unit.dispute_id is None
    &&& unit.integrity_check is Ok
}

/// Whether `unit` is the transformation unit of the payment operation:
/// the request that the operation's builder gives, inside the identifiers
/// and the merchant and connector context of the payment.
pub open spec fn is_payment_router_data<'a, F, T: FlowRequest<F>, E>(
    unit: RouterData<F, T, PaymentsResponseData>,
    state: &'a SessionState,
    payment_data: PaymentData<F>,
    connector_id: &'a str,
    merchant_account: MerchantAccount,
    customer: &'a Option<Customer>,
    account: MerchantConnectorAccountType,
    merchant_recipient_data: Option<Result<serde_json::Value, E>>,
    connector_api_version: Option<String>,
) -> bool {
    let intent = payment_data.payment_intent;
    let attempt = payment_data.payment_attempt;
    &&& unit.merchant_id == merchant_account.merchant_id
    &&& unit.customer_id == customer_id(*customer)
    &&& unit.connector@ == connector_id@
    &&& unit.payment_id == attempt.payment_id
    &&& unit.attempt_id == attempt.attempt_id
    &&& unit.status == attempt.status
    &&& Some(unit.payment_method) == attempt.payment_method
    &&& Some(unit.connector_auth_type) == account.connector_account_details.typed
    &&& unit.description == intent.description
    &&& unit.return_url == intent.return_url
    &&& unit.address == unit_address(payment_data.address, payment_data.payment_method_info)
    &&& unit.auth_type == unit_auth_type(attempt)
    &&& unit.connector_meta_data == unit_connector_meta_data(merchant_recipient_data, account)
    &&& unit.connector_wallets_details == account.connector_wallets_details
    &&& unit.request.is_request(builder_input(state, payment_data, connector_id, customer))
    &&& unit.response == Ok::<PaymentsResponseData, crate::types::ErrorResponse>(
        placeholder_response(attempt),
    )
    &&& unit.amount_captured == captured_amount(intent.amount_captured)
    &&& unit.minor_amount_captured == intent.amount_captured
    &&& unit.payment_method_status == match payment_data.payment_method_info {
        Some(info) => Some(info.status),
        None => None,
    }
    &&& unit.payment_method_token == unit_payment_method_token(payment_data.pm_token)
    &&& unit.connector_customer == payment_data.connector_customer_id
    &&& unit.recurring_mandate_payment_data == payment_data.recurring_mandate_payment_data
    &&& unit.connector_request_reference_id == if sends_payment_id(
        state.conf.connector_request_reference_id_config,
        merchant_account.merchant_id@,
    ) {
        attempt.payment_id
    } else {
        attempt.attempt_id
    }
    &&& unit.preprocessing_id == attempt.preprocessing_step_id
    &&& unit.test_mode == account.test_mode
    &&& unit.connector_api_version == unit_api_version(
        *state,
        connector_id@,
        connector_api_version,
    )
    &&& unit.apple_pay_flow == if attempt.payment_method_type == Some(PaymentMethodType::ApplePay) {
        account.apple_pay_flow
    } else {
        None
    }
    &&& is_fresh_unit(unit)
}

/// Constructs the transformation unit of a payment operation.
///
/// `connector_api_version` is what the configuration store holds under
/// the key that [`connector_api_version_key`] names, if anything;
/// `merchant_recipient_data` is the outcome of encoding the merchant
/// recipient data, where there are any.
pub fn construct_payment_router_data<'a, F, T: FlowRequest<F>, E>(
    state: &'a SessionState,
    payment_data: PaymentData<F>,
    connector_id: &'a str,
    merchant_account: &MerchantAccount,
    customer: &'a Option<Customer>,
    merchant_connector_account: &MerchantConnectorAccountType,
    merchant_recipient_data: Option<Result<serde_json::Value, E>>,
    connector_api_version: Option<String>,
) -> (r: Result<RouterData<F, T, PaymentsResponseData>, ApiErrorResponse>)
    requires
        T::accepts(builder_input(state, payment_data, connector_id, customer)),
    ensures
        match r {
            Ok(unit) => {
                &&& unit_failure(
                    payment_data,
                    connector_id@,
                    *merchant_connector_account,
                    merchant_recipient_data,
                ) is None
                &&& T::failure(builder_input(state, payment_data, connector_id, customer)) is None
                &&& is_payment_router_data(
                    unit,
                    state,
                    payment_data,
                    connector_id,
                    *merchant_account,
                    customer,
                    *merchant_connector_account,
                    merchant_recipient_data,
                    connector_api_version,
                )
            },
            Err(e) => match unit_failure(
                payment_data,
                connector_id@,
                *merchant_connector_account,
                merchant_recipient_data,
            ) {
                Some(early) => e == early,
                None => T::failure(builder_input(state, payment_data, connector_id, customer))
                    == Some(e),
            },
        },
{
    if merchant_connector_account.is_disabled() {
        return Err(ApiErrorResponse::MerchantConnectorAccountDisabled);
    }
    let test_mode = merchant_connector_account.is_test_mode_on();
    let auth_type = match &merchant_connector_account.connector_account_details.typed {
        Some(auth_type) => auth_type.clone(),
        None => {
            return Err(ApiErrorResponse::InternalServerError);
        },
    };
    let payment_method = match payment_data.payment_attempt.payment_method {
        Some(payment_method) => payment_method,
        None => {
            return Err(ApiErrorResponse::MissingRequiredField { field_name: "payment_method_type" });
        },
    };
    let response = build_placeholder_response(&payment_data.payment_attempt);
    let customer_id = match customer {
        Some(c) => Some(c.customer_id.clone()),
        None => None,
    };
    let connector_enum = match Connector::from_name(connector_id) {
        Some(connector) => connector,
        None => {
            return Err(ApiErrorResponse::InvalidDataValue { field_name: "connector" });
        },
    };
    let connector_api_version = if contains_connector(
        &state.conf.multiple_api_version_supported_connectors,
        connector_enum,
    ) {
        connector_api_version
    } else {
        None
    };
    let apple_pay_flow = decide_apple_pay_flow(
        &payment_data.payment_attempt.payment_method_type,
        merchant_connector_account,
    );
    let unified_address = match &payment_data.payment_method_info {
        Some(payment_method_info) => {
            let payment_method_billing = match &payment_method_info.payment_method_billing_address {
                Some(stored) => match &stored.typed {
                    Some(address) => Some(address.clone()),
                    None => {
                        return Err(ApiErrorResponse::InternalServerError);
                    },
                },
                None => None,
            };
            payment_data.address.clone().unify_with_payment_data_billing(payment_method_billing)
        },
        None => payment_data.address.clone(),
    };
    let connector_meta_data = match merchant_recipient_data {
        Some(Ok(value)) => Some(value),
        Some(Err(_)) => {
            return Err(ApiErrorResponse::InternalServerError);
        },
        None => clone_opt_document(&merchant_connector_account.metadata),
    };
    let payment_id = payment_data.payment_attempt.payment_id.clone();
    let attempt_id = payment_data.payment_attempt.attempt_id.clone();
    let status = payment_data.payment_attempt.status;
    let description = clone_opt_string(&payment_data.payment_intent.description);
    let return_url = clone_opt_string(&payment_data.payment_intent.return_url);
    let auth = match payment_data.payment_attempt.authentication_type {
        Some(t) => t,
        None => AuthenticationType::default_type(),
    };
    let minor_amount_captured = payment_data.payment_intent.amount_captured;
    let amount_captured = match minor_amount_captured {
        Some(amt) => Some(amt.get_amount_as_i64()),
        None => None,
    };
    let payment_method_status = match &payment_data.payment_method_info {
        Some(info) => Some(info.status),
        None => None,
    };
    let payment_method_token = match &payment_data.pm_token {
        Some(token) => Some(PaymentMethodToken::Token(token.clone())),
        None => None,
    };
    let connector_customer = clone_opt_string(&payment_data.connector_customer_id);
    let recurring_mandate_payment_data = payment_data.recurring_mandate_payment_data;
    let connector_request_reference_id = get_connector_request_reference_id(
        &state.conf.connector_request_reference_id_config,
        merchant_account.merchant_id.as_str(),
        &payment_data.payment_attempt,
    );
    let preprocessing_id = clone_opt_string(&payment_data.payment_attempt.preprocessing_step_id);

    let additional_data = PaymentAdditionalData {
        router_base_url: state.base_url.clone(),
        connector_name: connector_id,
        payment_data,
        customer_data: customer,
    };
    let request = T::try_from(additional_data)?;

    Ok(
        RouterData {
            flow: PhantomData,
            merchant_id: merchant_account.merchant_id.clone(),
            customer_id,
            connector: String::from_str(connector_id),
            payment_id,
            attempt_id,
            status,
            payment_method,
            connector_auth_type: auth_type,
            description,
            return_url,
            address: unified_address,
            auth_type: auth,
            connector_meta_data,
            connector_wallets_details: clone_opt_document(
                &merchant_connector_account.connector_wallets_details,
            ),
            request,
            response: Ok(response),
            amount_captured,
            minor_amount_captured,
            access_token: None,
            session_token: None,
            reference_id: None,
            payment_method_status,
            payment_method_token,
            connector_customer,
            recurring_mandate_payment_data,
            connector_request_reference_id,
            preprocessing_id,
            test_mode,
            payment_method_balance: None,
            connector_api_version,
            connector_http_status_code: None,
            external_latency: None,
            apple_pay_flow,
            frm_metadata: None,
            refund_id: None,
            dispute_id: None,
            integrity_check: Ok(()),
        },
    )
}

/// Why no unit for a tax update can be constructed before the request
/// itself is built, if so. The checks run in this order: the merchant's
/// connector account is not disabled; its credentials can be read; the
/// merchant recipient data, where given, were encoded.
pub open spec fn tax_unit_failure<E>(
    account: MerchantConnectorAccountType,
    merchant_recipient_data: Option<Result<serde_json::Value, E>>,
) -> Option<ApiErrorResponse> {
    if account.is_disabled_spec() {
        Some(ApiErrorResponse::MerchantConnectorAccountDisabled)
    } else if account.connector_account_details.typed is None {
        Some(ApiErrorResponse::InternalServerError)
    } else if recipient_data_unencodable(merchant_recipient_data) {
        Some(ApiErrorResponse::InternalServerError)
    } else {
        None
    }
}

/// Checks everything that rules a unit for a tax update out before its request is built.
pub fn check_tax_unit<E>(
    merchant_connector_account: &MerchantConnectorAccountType,
    merchant_recipient_data: &Option<Result<serde_json::Value, E>>,
) -> (r: Result<(), ApiErrorResponse>)
    ensures
        match r {
            Ok(_) => tax_unit_failure(*merchant_connector_account, *merchant_recipient_data)
                is None,
            Err(e) => tax_unit_failure(*merchant_connector_account, *merchant_recipient_data)
                == Some(e),
        },
{
    if merchant_connector_account.is_disabled() {
        return Err(ApiErrorResponse::MerchantConnectorAccountDisabled);
    }
    if merchant_connector_account.connector_account_details.typed.is_none() {
        return Err(ApiErrorResponse::InternalServerError);
    }
    if is_unencodable(merchant_recipient_data) {
        return Err(ApiErrorResponse::InternalServerError);
    }
    Ok(())
}

/// Whether `unit` is the transformation unit that tells a connector the
/// tax computed for a payment: the request of the operation, the
/// identifiers of the payment and the merchant's credentials, and nothing
/// of the customer, the payment method or earlier steps.
pub open spec fn is_tax_router_data<'a, F, T: FlowRequest<F>, E>(
    unit: RouterData<F, T, PaymentsResponseData>,
    state: &'a SessionState,
    payment_data: PaymentData<F>,
    connector_id: &'a str,
    merchant_account: MerchantAccount,
    customer: &'a Option<Customer>,
    account: MerchantConnectorAccountType,
    merchant_recipient_data: Option<Result<serde_json::Value, E>>,
) -> bool {
    let attempt = payment_data.payment_attempt;
    &&& unit.merchant_id == merchant_account.merchant_id
    &&& unit.customer_id is None
    &&& unit.connector@ == connector_id@
    &&& unit.payment_id == attempt.payment_id
    &&& unit.attempt_id == attempt.attempt_id
    &&& unit.status == attempt.status
    &&& unit.payment_method == PaymentMethod::Card
    &&& Some(unit.connector_auth_type) == account.connector_account_details.typed
    &&& unit.description is None
    &&& unit.return_url is None
    &&& unit.address == payment_data.address
    &&& unit.auth_type == unit_auth_type(attempt)
    &&& unit.connector_meta_data == unit_connector_meta_data(merchant_recipient_data, account)
    &&& unit.connector_wallets_details is None
    &&& unit.request.is_request(builder_input(state, payment_data, connector_id, customer))
    &&& unit.response == Ok::<PaymentsResponseData, crate::types::ErrorResponse>(
        placeholder_response(attempt),
    )
    &&& unit.amount_captured is None
    &&& unit.minor_amount_captured is None
    &&& unit.payment_method_status is None
    &&& unit.payment_method_token is None
    &&& unit.connector_customer is None
    &&& unit.recurring_mandate_payment_data is None
    &&& unit.connector_request_reference_id == if sends_payment_id(
        state.conf.connector_request_reference_id_config,
        merchant_account.merchant_id@,
    ) {
        attempt.payment_id
    } else {
        attempt.attempt_id
    }
    &&& unit.preprocessing_id is None
    &&& unit.test_mode == account.test_mode
    &&& unit.connector_api_version is None
    &&& unit.apple_pay_flow is None
    &&& is_fresh_unit(unit)
}

/// Constructs the transformation unit that tells a connector the tax computed for a payment.
///
/// `merchant_recipient_data` is the outcome of encoding the merchant
/// recipient data, where there are any.
pub fn construct_router_data_to_update_calculated_tax<'a, F, T: FlowRequest<F>, E>(
    state: &'a SessionState,
    payment_data: PaymentData<F>,
    connector_id: &'a str,
    merchant_account: &MerchantAccount,
    customer: &'a Option<Customer>,
    merchant_connector_account: &MerchantConnectorAccountType,
    merchant_recipient_data: Option<Result<serde_json::Value, E>>,
) -> (r: Result<RouterData<F, T, PaymentsResponseData>, ApiErrorResponse>)
    requires
        T::accepts(builder_input(state, payment_data, connector_id, customer)),
    ensures
        match r {
            Ok(unit) => {
                &&& tax_unit_failure(*merchant_connector_account, merchant_recipient_data) is None
                &&& T::failure(builder_input(state, payment_data, connector_id, customer)) is None
                &&& is_tax_router_data(
                    unit,
                    state,
                    payment_data,
                    connector_id,
                    *merchant_account,
                    customer,
                    *merchant_connector_account,
                    merchant_recipient_data,
                )
            },
            Err(e) => match tax_unit_failure(*merchant_connector_account, merchant_recipient_data) {
                Some(early) => e == early,
                None => T::failure(builder_input(state, payment_data, connector_id, customer))
                    == Some(e),
            },
        },
{
    if merchant_connector_account.is_disabled() {
        return Err(ApiErrorResponse::MerchantConnectorAccountDisabled);
    }
    let test_mode = merchant_connector_account.is_test_mode_on();
    let auth_type = match &merchant_connector_account.connector_account_details.typed {
        Some(auth_type) => auth_type.clone(),
        None => {
            return Err(ApiErrorResponse::InternalServerError);
        },
    };
    let response = build_placeholder_response(&payment_data.payment_attempt);
    let connector_meta_data = match merchant_recipient_data {
        Some(Ok(value)) => Some(value),
        Some(Err(_)) => {
            return Err(ApiErrorResponse::InternalServerError);
        },
        None => clone_opt_document(&merchant_connector_account.metadata),
    };
    let payment_id = payment_data.payment_attempt.payment_id.clone();
    let attempt_id = payment_data.payment_attempt.attempt_id.clone();
    let status = payment_data.payment_attempt.status;
    let address = payment_data.address.clone();
    let auth = match payment_data.payment_attempt.authentication_type {
        Some(t) => t,
        None => AuthenticationType::default_type(),
    };
    let connector_request_reference_id = get_connector_request_reference_id(
        &state.conf.connector_request_reference_id_config,
        merchant_account.merchant_id.as_str(),
        &payment_data.payment_attempt,
    );
    let additional_data = PaymentAdditionalData {
        router_base_url: state.base_url.clone(),
        connector_name: connector_id,
        payment_data,
        customer_data: customer,
    };
    let request = T::try_from(additional_data)?;

    Ok(
        RouterData {
            flow: PhantomData,
            merchant_id: merchant_account.merchant_id.clone(),
            customer_id: None,
            connector: String::from_str(connector_id),
            payment_id,
            attempt_id,
            status,
            payment_method: PaymentMethod::default_method(),
            connector_auth_type: auth_type,
            description: None,
            return_url: None,
            address,
            auth_type: auth,
            connector_meta_data,
            connector_wallets_details: None,
            request,
            response: Ok(response),
            amount_captured: None,
            minor_amount_captured: None,
            access_token: None,
            session_token: None,
            reference_id: None,
            payment_method_status: None,
            payment_method_token: None,
            connector_customer: None,
            recurring_mandate_payment_data: None,
            connector_request_reference_id,
            preprocessing_id: None,
            test_mode,
            payment_method_balance: None,
            connector_api_version: None,
            connector_http_status_code: None,
            external_latency: None,
            apple_pay_flow: None,
            frm_metadata: None,
            refund_id: None,
            dispute_id: None,
            integrity_check: Ok(()),
        },
    )
}

} // verus!
