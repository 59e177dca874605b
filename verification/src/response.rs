//! Assembly of the client-facing payment representation from the records of a payment.

use vstd::prelude::*;
use vstd::string::*;

use crate::api::{
    Address, MandateAmountData, MandateData, MandateType, OnlineMandate, CustomerAcceptance,
    PaymentChargeResponse, PaymentMethodData, PaymentMethodDataResponse,
    PaymentMethodDataResponseWithBilling, PaymentsResponse, RequestSurchargeDetails,
    EphemeralKeyCreateResponse, FrmMessage, NextActionData,
};
use crate::customer::Customer;
use crate::domain;
use crate::domain::first_some;
use crate::enums::{AuthFlow, Operation};
use crate::errors::ApiErrorResponse;
use crate::helpers::{
    connector_label, get_connector_label, is_manual_retry_allowed, manual_retry_allowed,
};
use crate::next_action::{is_next_action, next_action_failure, next_action_response};
use crate::response_parts::{
    build_response_headers, capture_responses, charges_response, clear_value, clear_value_of,
    customer_details_response, external_authentication_details,
    header_texts, is_frm_message, order_tax_amount, resolve_customer_details,
    resolve_order_tax_amount, response_headers, surcharge_details, to_capture_responses,
    to_external_authentication_details,
};
use crate::storage::{AttemptPaymentMethodData, Capture, PaymentAttempt, PaymentIntent};
use crate::document::{collect_documents, document_of, documents_of, take_document};
use crate::text::major_unit_text;
use crate::types::{
    ApplicationResponse, ConnectorRequestReferenceIdConfig, PaymentData, RedirectionFormData,
    RouterResponse,
};
use crate::utils::{decimal_places, displayable_amount, to_currency_base_unit};

verus! {

/// The client-facing form of a mandate's amount.
pub open spec fn mandate_amount_response(amount: domain::MandateAmountData) -> MandateAmountData {
    MandateAmountData {
        amount: amount.amount,
        currency: amount.currency,
        start_date: amount.start_date,
        end_date: amount.end_date,
        metadata: amount.metadata,
    }
}

/// The client-facing form of a mandate that is being set up.
pub open spec fn mandate_data_response(mandate: Option<domain::MandateData>) -> Option<MandateData> {
    match mandate {
        None => None,
        Some(m) => Some(
            MandateData {
                update_mandate_id: m.update_mandate_id,
                customer_acceptance: match m.customer_acceptance {
                    None => None,
                    Some(acceptance) => Some(
                        CustomerAcceptance {
                            acceptance_type: acceptance.acceptance_type,
                            accepted_at: acceptance.accepted_at,
                            online: match acceptance.online {
                                None => None,
                                Some(online) => Some(
                                    OnlineMandate {
                                        ip_address: online.ip_address,
                                        user_agent: online.user_agent,
                                    },
                                ),
                            },
                        },
                    ),
                },
                mandate_type: match m.mandate_type {
                    None => None,
                    Some(domain::MandateDataType::SingleUse(amount)) => Some(
                        MandateType::SingleUse(mandate_amount_response(amount)),
                    ),
                    Some(domain::MandateDataType::MultiUse(None)) => Some(
                        MandateType::MultiUse(None),
                    ),
                    Some(domain::MandateDataType::MultiUse(Some(amount))) => Some(
                        MandateType::MultiUse(Some(mandate_amount_response(amount))),
                    ),
                },
            },
        ),
    }
}

fn to_mandate_amount_response(amount: domain::MandateAmountData) -> (r: MandateAmountData)
    ensures
        r == mandate_amount_response(amount),
{
    MandateAmountData {
        amount: amount.amount,
        currency: amount.currency,
        start_date: amount.start_date,
        end_date: amount.end_date,
        metadata: amount.metadata,
    }
}

/// Turns a mandate that is being set up into its client-facing form.
pub fn to_mandate_data_response(mandate: Option<domain::MandateData>) -> (r: Option<MandateData>)
    ensures
        r == mandate_data_response(mandate),
{
    match mandate {
        None => None,
        Some(m) => {
            let customer_acceptance = match m.customer_acceptance {
                None => None,
                Some(acceptance) => {
                    let online = match acceptance.online {
                        None => None,
                        Some(online) => Some(
                            OnlineMandate {
                                ip_address: online.ip_address,
                                user_agent: online.user_agent,
                            },
                        ),
                    };
                    Some(
                        CustomerAcceptance {
                            acceptance_type: acceptance.acceptance_type,
                            accepted_at: acceptance.accepted_at,
                            online,
                        },
                    )
                },
            };
            let mandate_type = match m.mandate_type {
                None => None,
                Some(domain::MandateDataType::SingleUse(amount)) => Some(
                    MandateType::SingleUse(to_mandate_amount_response(amount)),
                ),
                Some(domain::MandateDataType::MultiUse(None)) => Some(MandateType::MultiUse(None)),
                Some(domain::MandateDataType::MultiUse(Some(amount))) => Some(
                    MandateType::MultiUse(Some(to_mandate_amount_response(amount))),
                ),
            };
            Some(
                MandateData {
                    update_mandate_id: m.update_mandate_id,
                    customer_acceptance,
                    mandate_type,
                },
            )
        },
    }
}

/// A list, or nothing where the list is empty.
pub open spec fn non_empty<T>(list: Vec<T>) -> Option<Vec<T>> {
    if list@.len() == 0 {
        None
    } else {
        Some(list)
    }
}

fn some_if_non_empty<T>(list: Vec<T>) -> (r: Option<Vec<T>>)
    ensures
        r == non_empty(list),
{
    if list.len() == 0 {
        None
    } else {
        Some(list)
    }
}

/// Whether the payment method details of the attempt are shown: whenever
/// the payment carries method data other than a network token.
pub open spec fn shows_method_details(method: Option<PaymentMethodData>) -> bool {
    method is Some && !(method->Some_0 is NetworkToken)
}

/// Whether the stored payment method details are due but cannot be read.
pub open spec fn method_details_unreadable(
    method: Option<PaymentMethodData>,
    stored: Option<AttemptPaymentMethodData>,
) -> bool {
    shows_method_details(method) && stored is Some && stored->Some_0.additional is None
}

/// The payment method details of a response.
pub open spec fn method_details(
    method: Option<PaymentMethodData>,
    stored: Option<AttemptPaymentMethodData>,
) -> Option<PaymentMethodDataResponse> {
    if shows_method_details(method) && stored is Some {
        stored->Some_0.additional
    } else {
        None
    }
}

/// The payment method part of a response: present when there are method
/// details to show or the request gave a billing address for the method.
pub open spec fn method_data_response(
    method: Option<PaymentMethodData>,
    stored: Option<AttemptPaymentMethodData>,
    billing: Option<Address>,
) -> Option<PaymentMethodDataResponseWithBilling> {
    if method_details(method, stored) is Some || billing is Some {
        Some(
            PaymentMethodDataResponseWithBilling {
                payment_method_data: method_details(method, stored),
                billing,
            },
        )
    } else {
        None
    }
}

/// Whether the operation is answered with a full-page redirect form.
pub open spec fn shows_redirect_form(attempt: PaymentAttempt, operation: Operation) -> bool {
    operation.is_start_pay_spec() && attempt.authentication_data is Some
}

/// Why no response can be assembled, if so. The checks run in this order:
/// the attempt has a currency; its amount can be displayed; its payment
/// method details can be read where they are due; for a redirect form,
/// the redirect data can be read; else a next step can be worked out and
/// the split-payment instructions can be read.
pub open spec fn unification_failure<F>(d: PaymentData<F>, operation: Operation) -> Option<
    ApiErrorResponse,
> {
    let attempt = d.payment_attempt;
    if attempt.currency is None {
        Some(ApiErrorResponse::MissingRequiredField { field_name: "currency" })
    } else if !displayable_amount(attempt.amount.0) {
        Some(ApiErrorResponse::InvalidDataValue { field_name: "amount" })
    } else if method_details_unreadable(d.payment_method_data, attempt.payment_method_data) {
        Some(ApiErrorResponse::InvalidDataValue { field_name: "payment_method_data" })
    } else if shows_redirect_form(attempt, operation) {
        if attempt.authentication_data->Some_0.typed is None {
            Some(ApiErrorResponse::InternalServerError)
        } else {
            None
        }
    } else if next_action_failure(attempt, d.payment_intent, d.authentication, operation)
        is Some {
        next_action_failure(attempt, d.payment_intent, d.authentication, operation)
    } else if d.payment_intent.charges is Some && d.payment_intent.charges->Some_0.typed is None {
        Some(ApiErrorResponse::InternalServerError)
    } else {
        None
    }
}

/// Whether `form` is the redirect form of the payment.
pub open spec fn is_redirection_form<F>(form: RedirectionFormData, d: PaymentData<F>) -> bool {
    let attempt = d.payment_attempt;
    &&& attempt.authentication_data is Some
    &&& attempt.authentication_data->Some_0.typed == Some(form.redirect_form)
    &&& form.payment_method_data == d.payment_method_data
    &&& attempt.currency is Some
    &&& form.amount@ == major_unit_text(
        attempt.amount.0 as nat,
        decimal_places(attempt.currency->Some_0),
    )
    &&& form.currency@ == attempt.currency->Some_0.name_spec()
}

/// Whether `text` is the label of the merchant's account with the connector of the attempt.
pub open spec fn is_connector_label(
    text: Option<String>,
    intent: PaymentIntent,
    attempt: PaymentAttempt,
) -> bool {
    let expected = match attempt.connector {
        Some(connector) => connector_label(
            intent.business_country,
            intent.business_label,
            attempt.business_sub_label,
            connector@,
        ),
        None => None,
    };
    match expected {
        Some(label) => text is Some && text->Some_0@ == label,
        None => text is None,
    }
}

/// Whether `resp` is the client-facing form of the payment: every field
/// taken from the record that owns it, the derived ones computed as their
/// own definitions say.
pub open spec fn is_payments_response<F>(
    resp: PaymentsResponse,
    d: PaymentData<F>,
    captures: Option<Seq<Capture>>,
    customer: Option<Customer>,
    base_url: Seq<char>,
    operation: Operation,
    config: ConnectorRequestReferenceIdConfig,
) -> bool {
    let intent = d.payment_intent;
    let attempt = d.payment_attempt;
    &&& resp.payment_id == intent.payment_id
    &&& resp.merchant_id == intent.merchant_id
    &&& resp.status == intent.status
    &&& resp.amount == attempt.amount
    &&& resp.net_amount == attempt.net_amount
    &&& resp.amount_capturable == attempt.amount_capturable
    &&& resp.amount_received == intent.amount_captured
    &&& resp.connector == attempt.connector
    &&& resp.client_secret == intent.client_secret
    &&& resp.created == Some(intent.created_at)
    &&& attempt.currency is Some
    &&& resp.currency@ == attempt.currency->Some_0.name_spec()
    &&& resp.customer_id == match customer {
        Some(c) => Some(c.customer_id),
        None => None,
    }
    &&& resp.customer == customer_details_response(intent.customer_details, customer)
    &&& resp.description == intent.description
    &&& resp.refunds == non_empty(d.refunds)
    &&& resp.disputes == non_empty(d.disputes)
    &&& resp.attempts == d.attempts
    &&& match captures {
        Some(list) => resp.captures is Some && resp.captures->Some_0@ == capture_responses(list),
        None => resp.captures is None,
    }
    &&& resp.mandate_id == attempt.mandate_id
    &&& resp.mandate_data == mandate_data_response(d.setup_mandate)
    &&& resp.setup_future_usage == intent.setup_future_usage
    &&& resp.off_session == intent.off_session
    &&& resp.capture_on is None
    &&& resp.capture_method == attempt.capture_method
    &&& resp.payment_method == attempt.payment_method
    &&& resp.payment_method_data == method_data_response(
        d.payment_method_data,
        attempt.payment_method_data,
        d.address.payment_method_billing,
    )
    &&& resp.payment_token == attempt.payment_token
    &&& resp.shipping == d.address.shipping
    &&& resp.billing == d.address.billing
    &&& match intent.order_details {
        Some(list) => resp.order_details is Some && resp.order_details->Some_0@ == documents_of(
            list@,
        ),
        None => resp.order_details is None,
    }
    &&& resp.email == match customer {
        Some(c) => clear_value(c.email),
        None => None,
    }
    &&& resp.name == match customer {
        Some(c) => clear_value(c.name),
        None => None,
    }
    &&& resp.phone == match customer {
        Some(c) => clear_value(c.phone),
        None => None,
    }
    &&& resp.return_url == intent.return_url
    &&& resp.authentication_type == attempt.authentication_type
    &&& resp.statement_descriptor_name == intent.statement_descriptor_name
    &&& resp.statement_descriptor_suffix == intent.statement_descriptor_suffix
    &&& is_next_action(
        resp.next_action,
        attempt,
        intent,
        d.authentication,
        d.poll_config,
        d.sessions_token@,
        base_url,
        operation,
    )
    &&& resp.cancellation_reason == attempt.cancellation_reason
    &&& resp.error_code == attempt.error_code
    &&& resp.error_message == first_some(attempt.error_reason, attempt.error_message)
    &&& resp.unified_code == attempt.unified_code
    &&& resp.unified_message == attempt.unified_message
    &&& resp.payment_experience == attempt.payment_experience
    &&& resp.payment_method_type == attempt.payment_method_type
    &&& is_connector_label(resp.connector_label, intent, attempt)
    &&& resp.business_country == intent.business_country
    &&& resp.business_label == intent.business_label
    &&& resp.business_sub_label == attempt.business_sub_label
    &&& resp.allowed_payment_method_types == intent.allowed_payment_method_types
    &&& resp.ephemeral_key == match d.ephemeral_key {
        Some(key) => Some(EphemeralKeyCreateResponse::of_key(key)),
        None => None,
    }
    &&& resp.manual_retry_allowed == manual_retry_allowed(
        intent.status,
        attempt.status,
        config,
        attempt.merchant_id@,
    )
    &&& resp.connector_transaction_id == attempt.connector_transaction_id
    &&& match d.frm_message {
        Some(check) => resp.frm_message is Some && is_frm_message(resp.frm_message->Some_0, check),
        None => resp.frm_message is None,
    }
    &&& resp.metadata == intent.metadata
    &&& resp.connector_metadata == document_of(intent.connector_metadata)
    &&& resp.feature_metadata == intent.feature_metadata
    &&& resp.reference_id == attempt.connector_response_reference_id
    &&& resp.payment_link == d.payment_link_data
    &&& resp.profile_id == intent.profile_id
    &&& resp.surcharge_details == surcharge_details(attempt.surcharge_amount, attempt.tax_amount)
    &&& resp.attempt_count == intent.attempt_count
    &&& resp.merchant_decision == intent.merchant_decision
    &&& resp.merchant_connector_id == attempt.merchant_connector_id
    &&& resp.incremental_authorization_allowed == intent.incremental_authorization_allowed
    &&& resp.authorization_count == intent.authorization_count
    &&& resp.incremental_authorizations == non_empty(d.authorizations)
    &&& resp.external_authentication_details == external_authentication_details(d.authentication)
    &&& resp.external_3ds_authentication_attempted
        == attempt.external_three_ds_authentication_attempted
    &&& resp.expires_on == intent.session_expiry
    &&& resp.fingerprint == intent.fingerprint_id
    &&& resp.browser_info == document_of(attempt.browser_info)
    &&& resp.payment_method_id == attempt.payment_method_id
    &&& resp.payment_method_status == match d.payment_method_info {
        Some(info) => Some(info.status),
        None => None,
    }
    &&& resp.updated == Some(intent.modified_at)
    &&& resp.charges == charges_response(intent.charges, attempt.charge_id)
    &&& resp.frm_metadata == intent.frm_metadata
    &&& resp.merchant_order_reference_id == intent.merchant_order_reference_id
    &&& resp.order_tax_amount == order_tax_amount(attempt.order_tax_amount, intent.tax_details)
}

/// The captures of an optional list, in their order.
pub open spec fn listed(captures: Option<Vec<Capture>>) -> Option<Seq<Capture>> {
    match captures {
        Some(list) => Some(list@),
        None => None,
    }
}

/// Whether `r` is the outcome of assembling the response of the payment
/// that lists the given captures.
pub open spec fn is_unified<F>(
    r: RouterResponse<PaymentsResponse>,
    d: PaymentData<F>,
    captures: Option<Seq<Capture>>,
    customer: Option<Customer>,
    base_url: Seq<char>,
    operation: Operation,
    config: ConnectorRequestReferenceIdConfig,
    connector_http_status_code: Option<u16>,
    external_latency: Option<u128>,
) -> bool {
    match r {
        Err(e) => unification_failure(d, operation) == Some(e),
        Ok(ApplicationResponse::Form(form)) => {
            &&& unification_failure(d, operation) is None
            &&& shows_redirect_form(d.payment_attempt, operation)
            &&& is_redirection_form(*form, d)
        },
        Ok(ApplicationResponse::JsonWithHeaders((resp, headers))) => {
            &&& unification_failure(d, operation) is None
            &&& !shows_redirect_form(d.payment_attempt, operation)
            &&& is_payments_response(resp, d, captures, customer, base_url, operation, config)
            &&& header_texts(headers@) == response_headers(
                connector_http_status_code,
                d.payment_intent.payment_confirm_source,
                external_latency,
            )
        },
    }
}

/// Assembles the client-facing form of a payment from its intent, its
/// active attempt, its sub-records and its customer, with the response
/// headers beside it; or the redirect form, where the operation resumes a
/// payment that carries redirect data.
pub fn payments_to_payments_response<F>(
    payment_data: PaymentData<F>,
    captures: Option<Vec<Capture>>,
    customer: Option<Customer>,
    _auth_flow: AuthFlow,
    base_url: &str,
    operation: &Operation,
    connector_request_reference_id_config: &ConnectorRequestReferenceIdConfig,
    connector_http_status_code: Option<u16>,
    external_latency: Option<u128>,
    _is_latency_header_enabled: Option<bool>,
) -> (r: RouterResponse<PaymentsResponse>)
    ensures
        is_unified(
            r,
            payment_data,
            listed(captures),
            customer,
            base_url@,
            *operation,
            *connector_request_reference_id_config,
            connector_http_status_code,
            external_latency,
        ),
{
    let PaymentData {
        flow: _,
        payment_intent,
        payment_attempt,
        multiple_capture_data: _,
        amount: _,
        mandate_id: _,
        setup_mandate,
        customer_acceptance: _,
        currency: _,
        address,
        token: _,
        payment_method_data,
        payment_method_info,
        refunds,
        disputes,
        attempts,
        sessions_token,
        email: _,
        creds_identifier: _,
        pm_token: _,
        connector_customer_id: _,
        recurring_mandate_payment_data: _,
        ephemeral_key,
        redirect_response: _,
        surcharge_details: _,
        frm_message,
        payment_link_data,
        incremental_authorization_details: _,
        authorizations,
        authentication,
        poll_config,
        session_id: _,
    } = payment_data;

    let currency = match payment_attempt.currency {
        Some(currency) => currency,
        None => {
            return Err(ApiErrorResponse::MissingRequiredField { field_name: "currency" });
        },
    };
    let amount = match to_currency_base_unit(payment_attempt.amount.get_amount_as_i64(), currency) {
        Ok(amount) => amount,
        Err(_) => {
            return Err(ApiErrorResponse::InvalidDataValue { field_name: "amount" });
        },
    };

    let shows_details = match &payment_method_data {
        Some(PaymentMethodData::NetworkToken(_)) => false,
        Some(_) => true,
        None => false,
    };
    if shows_details {
        match &payment_attempt.payment_method_data {
            Some(stored) => {
                if stored.additional.is_none() {
                    return Err(
                        ApiErrorResponse::InvalidDataValue { field_name: "payment_method_data" },
                    );
                }
            },
            None => {},
        }
    }

    let headers = build_response_headers(
        connector_http_status_code,
        payment_intent.payment_confirm_source,
        external_latency,
    );
    let customer_details = resolve_customer_details(&payment_intent.customer_details, &customer);

    if operation.is_start_pay() && payment_attempt.authentication_data.is_some() {
        let form = match payment_attempt.authentication_data {
            Some(stored) => match stored.typed {
                Some(form) => form,
                None => {
                    return Err(ApiErrorResponse::InternalServerError);
                },
            },
            None => {
                return Err(ApiErrorResponse::InternalServerError);
            },
        };
        return Ok(
            ApplicationResponse::Form(
                Box::new(
                    RedirectionFormData {
                        redirect_form: form,
                        payment_method_data,
                        amount,
                        currency: String::from_str(currency.name()),
                    },
                ),
            ),
        );
    }

    let next_action = next_action_response(
        &payment_attempt,
        &payment_intent,
        &authentication,
        poll_config,
        &sessions_token,
        base_url,
        operation,
    )?;

    let connector_label = match &payment_attempt.connector {
        Some(connector_name) => get_connector_label(
            payment_intent.business_country.as_ref(),
            payment_intent.business_label.as_ref(),
            payment_attempt.business_sub_label.as_ref(),
            connector_name.as_str(),
        ),
        None => None,
    };

    let charges = match payment_intent.charges {
        None => None,
        Some(stored) => match stored.typed {
            Some(payment_charges) => Some(
                PaymentChargeResponse {
                    charge_id: payment_attempt.charge_id,
                    charge_type: payment_charges.charge_type,
                    application_fees: payment_charges.fees,
                    transfer_account_id: payment_charges.transfer_account_id,
                },
            ),
            None => {
                return Err(ApiErrorResponse::InternalServerError);
            },
        },
    };

    let manual_retry = is_manual_retry_allowed(
        &payment_intent.status,
        &payment_attempt.status,
        connector_request_reference_id_config,
        payment_attempt.merchant_id.as_str(),
    );
    let order_tax = resolve_order_tax_amount(
        payment_attempt.order_tax_amount,
        &payment_intent.tax_details,
    );
    let external_authentication = to_external_authentication_details(&authentication);
    let captures_response = match &captures {
        Some(list) => Some(to_capture_responses(list)),
        None => None,
    };
    let order_details = match &payment_intent.order_details {
        Some(list) => Some(collect_documents(list)),
        None => None,
    };
    let (customer_id, email, name, phone) = match &customer {
        Some(c) => (
            Some(c.customer_id.clone()),
            clear_value_of(&c.email),
            clear_value_of(&c.name),
            clear_value_of(&c.phone),
        ),
        None => (None, None, None, None),
    };

    let method_details = if shows_details {
        match payment_attempt.payment_method_data {
            Some(stored) => stored.additional,
            None => None,
        }
    } else {
        None
    };
    let payment_method_data_response = if method_details.is_some()
        || address.payment_method_billing.is_some() {
        Some(
            PaymentMethodDataResponseWithBilling {
                payment_method_data: method_details,
                billing: address.payment_method_billing,
            },
        )
    } else {
        None
    };
    let surcharge = match payment_attempt.surcharge_amount {
        Some(surcharge_amount) => Some(
            RequestSurchargeDetails { surcharge_amount, tax_amount: payment_attempt.tax_amount },
        ),
        None => None,
    };
    let frm = match frm_message {
        Some(check) => Some(FrmMessage::foreign_from(check)),
        None => None,
    };
    let ephemeral = match ephemeral_key {
        Some(key) => Some(EphemeralKeyCreateResponse::foreign_from(key)),
        None => None,
    };
    let error_message = match payment_attempt.error_reason {
        Some(reason) => Some(reason),
        None => payment_attempt.error_message,
    };
    let payment_method_status = match payment_method_info {
        Some(info) => Some(info.status),
        None => None,
    };

    let payments_response = PaymentsResponse {
        payment_id: payment_intent.payment_id,
        merchant_id: payment_intent.merchant_id,
        status: payment_intent.status,
        amount: payment_attempt.amount,
        net_amount: payment_attempt.net_amount,
        amount_capturable: payment_attempt.amount_capturable,
        amount_received: payment_intent.amount_captured,
        connector: payment_attempt.connector,
        client_secret: payment_intent.client_secret,
        created: Some(payment_intent.created_at),
        currency: String::from_str(currency.name()),
        customer_id,
        customer: customer_details,
        description: payment_intent.description,
        refunds: some_if_non_empty(refunds),
        disputes: some_if_non_empty(disputes),
        attempts,
        captures: captures_response,
        mandate_id: payment_attempt.mandate_id,
        mandate_data: to_mandate_data_response(setup_mandate),
        setup_future_usage: payment_intent.setup_future_usage,
        off_session: payment_intent.off_session,
        capture_on: None,
        capture_method: payment_attempt.capture_method,
        payment_method: payment_attempt.payment_method,
        payment_method_data: payment_method_data_response,
        payment_token: payment_attempt.payment_token,
        shipping: address.shipping,
        billing: address.billing,
        order_details,
        email,
        name,
        phone,
        return_url: payment_intent.return_url,
        authentication_type: payment_attempt.authentication_type,
        statement_descriptor_name: payment_intent.statement_descriptor_name,
        statement_descriptor_suffix: payment_intent.statement_descriptor_suffix,
        next_action,
        cancellation_reason: payment_attempt.cancellation_reason,
        error_code: payment_attempt.error_code,
        error_message,
        unified_code: payment_attempt.unified_code,
        unified_message: payment_attempt.unified_message,
        payment_experience: payment_attempt.payment_experience,
        payment_method_type: payment_attempt.payment_method_type,
        connector_label,
        business_country: payment_intent.business_country,
        business_label: payment_intent.business_label,
        business_sub_label: payment_attempt.business_sub_label,
        allowed_payment_method_types: payment_intent.allowed_payment_method_types,
        ephemeral_key: ephemeral,
        manual_retry_allowed: manual_retry,
        connector_transaction_id: payment_attempt.connector_transaction_id,
        frm_message: frm,
        metadata: payment_intent.metadata,
        connector_metadata: take_document(payment_intent.connector_metadata),
        feature_metadata: payment_intent.feature_metadata,
        reference_id: payment_attempt.connector_response_reference_id,
        payment_link: payment_link_data,
        profile_id: payment_intent.profile_id,
        surcharge_details: surcharge,
        attempt_count: payment_intent.attempt_count,
        merchant_decision: payment_intent.merchant_decision,
        merchant_connector_id: payment_attempt.merchant_connector_id,
        incremental_authorization_allowed: payment_intent.incremental_authorization_allowed,
        authorization_count: payment_intent.authorization_count,
        incremental_authorizations: some_if_non_empty(authorizations),
        external_authentication_details: external_authentication,
        external_3ds_authentication_attempted: payment_attempt.external_three_ds_authentication_attempted,
        expires_on: payment_intent.session_expiry,
        fingerprint: payment_intent.fingerprint_id,
        browser_info: take_document(payment_attempt.browser_info),
        payment_method_id: payment_attempt.payment_method_id,
        payment_method_status,
        updated: Some(payment_intent.modified_at),
        charges,
        frm_metadata: payment_intent.frm_metadata,
        merchant_order_reference_id: payment_intent.merchant_order_reference_id,
        order_tax_amount: order_tax,
    };
    Ok(ApplicationResponse::JsonWithHeaders((payments_response, headers)))
}

/// Whether two next steps are the same: of one kind and with the same
/// content, texts compared as texts.
pub open spec fn same_next_action(a: Option<NextActionData>, b: Option<NextActionData>) -> bool {
    match (a, b) {
        (None, None) => true,
        (
            Some(NextActionData::RedirectToUrl { redirect_to_url: first }),
            Some(NextActionData::RedirectToUrl { redirect_to_url: second }),
        ) => first@ == second@,
        (
            Some(NextActionData::ThreeDsInvoke { three_ds_data: first }),
            Some(NextActionData::ThreeDsInvoke { three_ds_data: second }),
        ) => {
            &&& first.three_ds_authentication_url@ == second.three_ds_authentication_url@
            &&& first.three_ds_authorize_url@ == second.three_ds_authorize_url@
            &&& first.three_ds_method_details == second.three_ds_method_details
            &&& first.poll_config.poll_id@ == second.poll_config.poll_id@
            &&& first.poll_config.delay_in_secs == second.poll_config.delay_in_secs
            &&& first.poll_config.frequency == second.poll_config.frequency
            &&& first.message_version == second.message_version
            &&& first.directory_server_id == second.directory_server_id
        },
        (Some(first), Some(second)) => first == second,
        _ => false,
    }
}

/// Whether two fraud-check messages are the same, texts compared as texts.
pub open spec fn same_frm_message(a: Option<FrmMessage>, b: Option<FrmMessage>) -> bool {
    match (a, b) {
        (None, None) => true,
        (Some(first), Some(second)) => {
            &&& first.frm_name == second.frm_name
            &&& first.frm_transaction_id == second.frm_transaction_id
            &&& first.frm_transaction_type is Some
            &&& second.frm_transaction_type is Some
            &&& first.frm_transaction_type->Some_0@ == second.frm_transaction_type->Some_0@
            &&& first.frm_status is Some
            &&& second.frm_status is Some
            &&& first.frm_status->Some_0@ == second.frm_status->Some_0@
            &&& first.frm_score == second.frm_score
            &&& first.frm_reason == second.frm_reason
            &&& first.frm_error == second.frm_error
        },
        _ => false,
    }
}

/// Whether two optional texts are the same.
pub open spec fn same_text(a: Option<String>, b: Option<String>) -> bool {
    match (a, b) {
        (None, None) => true,
        (Some(first), Some(second)) => first@ == second@,
        _ => false,
    }
}

/// Whether two optional lists hold the same items in the same order.
pub open spec fn same_items<T>(a: Option<Vec<T>>, b: Option<Vec<T>>) -> bool {
    match (a, b) {
        (None, None) => true,
        (Some(first), Some(second)) => first@ == second@,
        _ => false,
    }
}

/// Whether two payment representations are the same in every field; texts
/// compared as texts and lists item by item.
pub open spec fn same_payments_response(a: PaymentsResponse, b: PaymentsResponse) -> bool {
    &&& a.payment_id == b.payment_id
    &&& a.merchant_id == b.merchant_id
    &&& a.status == b.status
    &&& a.amount == b.amount
    &&& a.net_amount == b.net_amount
    &&& a.amount_capturable == b.amount_capturable
    &&& a.amount_received == b.amount_received
    &&& a.connector == b.connector
    &&& a.client_secret == b.client_secret
    &&& a.created == b.created
    &&& a.currency@ == b.currency@
    &&& a.customer_id == b.customer_id
    &&& a.customer == b.customer
    &&& a.description == b.description
    &&& a.refunds == b.refunds
    &&& a.disputes == b.disputes
    &&& a.attempts == b.attempts
    &&& same_items(a.captures, b.captures)
    &&& a.mandate_id == b.mandate_id
    &&& a.mandate_data == b.mandate_data
    &&& a.setup_future_usage == b.setup_future_usage
    &&& a.off_session == b.off_session
    &&& a.capture_on == b.capture_on
    &&& a.capture_method == b.capture_method
    &&& a.payment_method == b.payment_method
    &&& a.payment_method_data == b.payment_method_data
    &&& a.payment_token == b.payment_token
    &&& a.shipping == b.shipping
    &&& a.billing == b.billing
    &&& same_items(a.order_details, b.order_details)
    &&& a.email == b.email
    &&& a.name == b.name
    &&& a.phone == b.phone
    &&& a.return_url == b.return_url
    &&& a.authentication_type == b.authentication_type
    &&& a.statement_descriptor_name == b.statement_descriptor_name
    &&& a.statement_descriptor_suffix == b.statement_descriptor_suffix
    &&& same_next_action(a.next_action, b.next_action)
    &&& a.cancellation_reason == b.cancellation_reason
    &&& a.error_code == b.error_code
    &&& a.error_message == b.error_message
    &&& a.unified_code == b.unified_code
    &&& a.unified_message == b.unified_message
    &&& a.payment_experience == b.payment_experience
    &&& a.payment_method_type == b.payment_method_type
    &&& same_text(a.connector_label, b.connector_label)
    &&& a.business_country == b.business_country
    &&& a.business_label == b.business_label
    &&& a.business_sub_label == b.business_sub_label
    &&& a.allowed_payment_method_types == b.allowed_payment_method_types
    &&& a.ephemeral_key == b.ephemeral_key
    &&& a.manual_retry_allowed == b.manual_retry_allowed
    &&& a.connector_transaction_id == b.connector_transaction_id
    &&& same_frm_message(a.frm_message, b.frm_message)
    &&& a.metadata == b.metadata
    &&& a.connector_metadata == b.connector_metadata
    &&& a.feature_metadata == b.feature_metadata
    &&& a.reference_id == b.reference_id
    &&& a.payment_link == b.payment_link
    &&& a.profile_id == b.profile_id
    &&& a.surcharge_details == b.surcharge_details
    &&& a.attempt_count == b.attempt_count
    &&& a.merchant_decision == b.merchant_decision
    &&& a.merchant_connector_id == b.merchant_connector_id
    &&& a.incremental_authorization_allowed == b.incremental_authorization_allowed
    &&& a.authorization_count == b.authorization_count
    &&& a.incremental_authorizations == b.incremental_authorizations
    &&& a.external_authentication_details == b.external_authentication_details
    &&& a.external_3ds_authentication_attempted == b.external_3ds_authentication_attempted
    &&& a.expires_on == b.expires_on
    &&& a.fingerprint == b.fingerprint
    &&& a.browser_info == b.browser_info
    &&& a.payment_method_id == b.payment_method_id
    &&& a.payment_method_status == b.payment_method_status
    &&& a.updated == b.updated
    &&& a.charges == b.charges
    &&& a.frm_metadata == b.frm_metadata
    &&& a.merchant_order_reference_id == b.merchant_order_reference_id
    &&& a.order_tax_amount == b.order_tax_amount
}

/// Whether two outcomes of assembling a response are the same: the same
/// failure, the same redirect form, or the same body with the same headers.
pub open spec fn same_outcome(
    a: RouterResponse<PaymentsResponse>,
    b: RouterResponse<PaymentsResponse>,
) -> bool {
    match (a, b) {
        (Err(first), Err(second)) => first == second,
        (Ok(ApplicationResponse::Form(first)), Ok(ApplicationResponse::Form(second))) => {
            &&& first.redirect_form == second.redirect_form
            &&& first.payment_method_data == second.payment_method_data
            &&& first.amount@ == second.amount@
            &&& first.currency@ == second.currency@
        },
        (
            Ok(ApplicationResponse::JsonWithHeaders((first, first_headers))),
            Ok(ApplicationResponse::JsonWithHeaders((second, second_headers))),
        ) => same_payments_response(first, second) && header_texts(first_headers@) == header_texts(
            second_headers@,
        ),
        _ => false,
    }
}

/// Assembling the response of one payment twice gives the same outcome:
/// whatever two outcomes meet the contract of the assembly for the same
/// records are the same, field by field and header by header.
pub proof fn unification_is_deterministic<F>(
    first: RouterResponse<PaymentsResponse>,
    second: RouterResponse<PaymentsResponse>,
    d: PaymentData<F>,
    captures: Option<Seq<Capture>>,
    customer: Option<Customer>,
    base_url: Seq<char>,
    operation: Operation,
    config: ConnectorRequestReferenceIdConfig,
    connector_http_status_code: Option<u16>,
    external_latency: Option<u128>,
)
    requires
        is_unified(
            first,
            d,
            captures,
            customer,
            base_url,
            operation,
            config,
            connector_http_status_code,
            external_latency,
        ),
        is_unified(
            second,
            d,
            captures,
            customer,
            base_url,
            operation,
            config,
            connector_http_status_code,
            external_latency,
        ),
    ensures
        same_outcome(first, second),
{
}

} // verus!
