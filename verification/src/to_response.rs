//! The responses of the payment operations, each generated from the records of a payment.

use vstd::prelude::*;
use vstd::string::*;

use crate::api::{
    CustomerDetailsResponse, DisplayAmountOnSdk, MinorUnit, PaymentsDynamicTaxCalculationResponse,
    PaymentsResponse, PaymentsSessionResponse, VerifyResponse,
};
use crate::customer::Customer;
use crate::document::{collect_documents, documents_of, take_typed, typed_of};
use crate::enums::{AuthFlow, Currency, Operation};
use crate::errors::ApiErrorResponse;
use crate::response::{is_unified, payments_to_payments_response};
use crate::response_parts::{
    clear_value, clear_value_of, intent_order_tax_amount, resolve_intent_order_tax_amount,
};
use crate::storage::{Capture, PaymentAttempt, PaymentIntent};
use crate::text::major_unit_text;
use crate::types::{
    ApplicationResponse, ConnectorRequestReferenceIdConfig, MultipleCaptureData, PaymentData,
    RouterResponse,
};
use crate::utils::{decimal_places, displayable_amount, to_currency_base_unit};

verus! {

/// A response of a payment operation that is generated from the records of the payment.
pub trait ToResponse<F>: Sized {
    /// The payments for which a response can be generated.
    spec fn accepts(data: PaymentData<F>) -> bool;

    /// Whether `r` is the outcome of generating the response.
    spec fn is_response(
        r: RouterResponse<Self>,
        data: PaymentData<F>,
        customer: Option<Customer>,
        base_url: Seq<char>,
        operation: Operation,
        config: ConnectorRequestReferenceIdConfig,
        connector_http_status_code: Option<u16>,
        external_latency: Option<u128>,
    ) -> bool;

    fn generate_response(
        data: PaymentData<F>,
        customer: Option<Customer>,
        auth_flow: AuthFlow,
        base_url: &str,
        operation: Operation,
        connector_request_reference_id_config: &ConnectorRequestReferenceIdConfig,
        connector_http_status_code: Option<u16>,
        external_latency: Option<u128>,
        is_latency_header_enabled: Option<bool>,
    ) -> (r: RouterResponse<Self>)
        requires
            Self::accepts(data),
        ensures
            Self::is_response(
                r,
                data,
                customer,
                base_url@,
                operation,
                *connector_request_reference_id_config,
                connector_http_status_code,
                external_latency,
            ),
    ;
}

impl MultipleCaptureData {
    /// All captures of the attempt.
    pub fn get_all_captures(&self) -> (r: &Vec<Capture>)
        ensures
            *r == self.all_captures,
    {
        &self.all_captures
    }

    /// The latest capture of the attempt.
    pub fn get_latest_capture(&self) -> (r: &Capture)
        ensures
            *r == self.latest_capture,
    {
        &self.latest_capture
    }
}

/// The captures that a response lists: all of them where the payment was
/// asked to expand its captures, none otherwise.
pub open spec fn expanded_captures(capture_data: Option<MultipleCaptureData>) -> Option<
    Seq<Capture>,
> {
    if capture_data is Some && capture_data->Some_0.expand_captures == Some(true) {
        Some(capture_data->Some_0.all_captures@)
    } else {
        None
    }
}

fn copy_captures(captures: &Vec<Capture>) -> (r: Vec<Capture>)
    ensures
        r@ == captures@,
{
    let mut out: Vec<Capture> = Vec::new();
    let mut i: usize = 0;
    while i < captures.len()
        invariant
            i <= captures.len(),
            out@.len() == i,
            forall|j: int| 0 <= j < i ==> out@[j] == captures@[j],
        decreases captures.len() - i,
    {
        out.push(captures[i].clone());
        i += 1;
    }
    out
}

impl<F> ToResponse<F> for PaymentsResponse {
    open spec fn accepts(data: PaymentData<F>) -> bool {
        true
    }

    /// The unified response of the payment, listing the captures that it was asked to expand.
    open spec fn is_response(
        r: RouterResponse<Self>,
        data: PaymentData<F>,
        customer: Option<Customer>,
        base_url: Seq<char>,
        operation: Operation,
        config: ConnectorRequestReferenceIdConfig,
        connector_http_status_code: Option<u16>,
        external_latency: Option<u128>,
    ) -> bool {
        is_unified(
            r,
            data,
            expanded_captures(data.multiple_capture_data),
            customer,
            base_url,
            operation,
            config,
            connector_http_status_code,
            external_latency,
        )
    }

    fn generate_response(
        payment_data: PaymentData<F>,
        customer: Option<Customer>,
        auth_flow: AuthFlow,
        base_url: &str,
        operation: Operation,
        connector_request_reference_id_config: &ConnectorRequestReferenceIdConfig,
        connector_http_status_code: Option<u16>,
        external_latency: Option<u128>,
        is_latency_header_enabled: Option<bool>,
    ) -> (r: RouterResponse<Self>) {
        let captures = match &payment_data.multiple_capture_data {
            Some(multiple_capture_data) => match multiple_capture_data.expand_captures {
                Some(true) => Some(copy_captures(multiple_capture_data.get_all_captures())),
                _ => None,
            },
            None => None,
        };
        payments_to_payments_response(
            payment_data,
            captures,
            customer,
            auth_flow,
            base_url,
            &operation,
            connector_request_reference_id_config,
            connector_http_status_code,
            external_latency,
            is_latency_header_enabled,
        )
    }
}

impl<F> ToResponse<F> for PaymentsSessionResponse {
    open spec fn accepts(data: PaymentData<F>) -> bool {
        true
    }

    /// The session tokens of the payment under its client secret, without
    /// headers; a payment without a client secret has no such response.
    open spec fn is_response(
        r: RouterResponse<Self>,
        data: PaymentData<F>,
        customer: Option<Customer>,
        base_url: Seq<char>,
        operation: Operation,
        config: ConnectorRequestReferenceIdConfig,
        connector_http_status_code: Option<u16>,
        external_latency: Option<u128>,
    ) -> bool {
        match data.payment_intent.client_secret {
            None => r == Err::<ApplicationResponse<Self>, ApiErrorResponse>(
                ApiErrorResponse::MissingRequiredField { field_name: "client_secret" },
            ),
            Some(secret) => {
                &&& r matches Ok(ApplicationResponse::JsonWithHeaders((resp, headers)))
                &&& resp.session_token == data.sessions_token
                &&& resp.payment_id == data.payment_attempt.payment_id
                &&& resp.client_secret == secret
                &&& headers@.len() == 0
            },
        }
    }

    fn generate_response(
        payment_data: PaymentData<F>,
        _customer: Option<Customer>,
        _auth_flow: AuthFlow,
        _base_url: &str,
        _operation: Operation,
        _connector_request_reference_id_config: &ConnectorRequestReferenceIdConfig,
        _connector_http_status_code: Option<u16>,
        _external_latency: Option<u128>,
        _is_latency_header_enabled: Option<bool>,
    ) -> (r: RouterResponse<Self>) {
        let client_secret = match payment_data.payment_intent.client_secret {
            Some(secret) => secret,
            None => {
                return Err(ApiErrorResponse::MissingRequiredField { field_name: "client_secret" });
            },
        };
        Ok(
            ApplicationResponse::JsonWithHeaders(
                (
                    PaymentsSessionResponse {
                        session_token: payment_data.sessions_token,
                        payment_id: payment_data.payment_attempt.payment_id,
                        client_secret,
                    },
                    Vec::new(),
                ),
            ),
        )
    }
}

/// Which amount, if any, cannot be shown in display form: the net amount
/// first, then the shipping cost, then the tax on the order.
pub open spec fn display_amount_failure(
    net_amount: MinorUnit,
    shipping_cost: Option<MinorUnit>,
    order_tax_amount: Option<MinorUnit>,
) -> Option<ApiErrorResponse> {
    if !displayable_amount(net_amount.0) {
        Some(
            ApiErrorResponse::PreconditionFailed {
                message: "Failed to convert net_amount to base unit",
            },
        )
    } else if shipping_cost is Some && !displayable_amount(shipping_cost->Some_0.0) {
        Some(
            ApiErrorResponse::PreconditionFailed {
                message: "Failed to convert shipping_cost to base unit",
            },
        )
    } else if order_tax_amount is Some && !displayable_amount(order_tax_amount->Some_0.0) {
        Some(
            ApiErrorResponse::PreconditionFailed {
                message: "Failed to convert order_tax_amount to base unit",
            },
        )
    } else {
        None
    }
}

/// Whether `text` is the display form of the optional `amount`.
pub open spec fn is_display_amount(
    text: Option<String>,
    amount: Option<MinorUnit>,
    currency: Currency,
) -> bool {
    match amount {
        Some(a) => text is Some && text->Some_0@ == major_unit_text(
            a.0 as nat,
            decimal_places(currency),
        ),
        None => text is None,
    }
}

/// Whether `display` shows the three amounts in display form.
pub open spec fn is_display_amounts(
    display: DisplayAmountOnSdk,
    net_amount: MinorUnit,
    shipping_cost: Option<MinorUnit>,
    order_tax_amount: Option<MinorUnit>,
    currency: Currency,
) -> bool {
    &&& display.net_amount@ == major_unit_text(net_amount.0 as nat, decimal_places(currency))
    &&& is_display_amount(display.shipping_cost, shipping_cost, currency)
    &&& is_display_amount(display.order_tax_amount, order_tax_amount, currency)
}

impl DisplayAmountOnSdk {
    /// The display forms of a net amount, a shipping cost and a tax on the
    /// order, given as `(net_amount, shipping_cost, order_tax_amount, currency)`.
    pub fn foreign_try_from(
        value: (MinorUnit, Option<MinorUnit>, Option<MinorUnit>, Currency),
    ) -> (r: Result<Self, ApiErrorResponse>)
        ensures
            match r {
                Ok(display) => display_amount_failure(value.0, value.1, value.2) is None
                    && is_display_amounts(display, value.0, value.1, value.2, value.3),
                Err(e) => display_amount_failure(value.0, value.1, value.2) == Some(e),
            },
    {
        let (net_amount, shipping_cost, order_tax_amount, currency) = value;
        let sdk_net_amount = match to_currency_base_unit(net_amount.get_amount_as_i64(), currency) {
            Ok(text) => text,
            Err(_) => {
                return Err(
                    ApiErrorResponse::PreconditionFailed {
                        message: "Failed to convert net_amount to base unit",
                    },
                );
            },
        };
        let sdk_shipping_cost = match shipping_cost {
            Some(cost) => match to_currency_base_unit(cost.get_amount_as_i64(), currency) {
                Ok(text) => Some(text),
                Err(_) => {
                    return Err(
                        ApiErrorResponse::PreconditionFailed {
                            message: "Failed to convert shipping_cost to base unit",
                        },
                    );
                },
            },
            None => None,
        };
        let sdk_order_tax_amount = match order_tax_amount {
            Some(cost) => match to_currency_base_unit(cost.get_amount_as_i64(), currency) {
                Ok(text) => Some(text),
                Err(_) => {
                    return Err(
                        ApiErrorResponse::PreconditionFailed {
                            message: "Failed to convert order_tax_amount to base unit",
                        },
                    );
                },
            },
            None => None,
        };
        Ok(
            DisplayAmountOnSdk {
                net_amount: sdk_net_amount,
                shipping_cost: sdk_shipping_cost,
                order_tax_amount: sdk_order_tax_amount,
            },
        )
    }
}

/// The value of an optional amount, nothing counting as zero.
pub open spec fn amount_or_zero(amount: Option<MinorUnit>) -> int {
    match amount {
        Some(a) => a.0 as int,
        None => 0,
    }
}

/// The net amount of a payment: its amount, shipping cost and tax on the order together.
pub open spec fn net_amount_with_tax(intent: PaymentIntent) -> int {
    intent.amount.0 + amount_or_zero(intent.shipping_cost) + amount_or_zero(
        intent_order_tax_amount(intent.tax_details),
    )
}

impl<F> ToResponse<F> for PaymentsDynamicTaxCalculationResponse {
    /// The amount with the shipping cost, and that sum with the tax, stay in the 64-bit range.
    open spec fn accepts(data: PaymentData<F>) -> bool {
        let intent = data.payment_intent;
        &&& i64::MIN <= intent.amount.0 + amount_or_zero(intent.shipping_cost) <= i64::MAX
        &&& i64::MIN <= net_amount_with_tax(intent) <= i64::MAX
    }

    /// The net amount of the payment with its parts, in minor units and in
    /// display form, without headers. There is no such response for an
    /// attempt without a currency, nor where an amount cannot be displayed.
    open spec fn is_response(
        r: RouterResponse<Self>,
        data: PaymentData<F>,
        customer: Option<Customer>,
        base_url: Seq<char>,
        operation: Operation,
        config: ConnectorRequestReferenceIdConfig,
        connector_http_status_code: Option<u16>,
        external_latency: Option<u128>,
    ) -> bool {
        let intent = data.payment_intent;
        let tax = intent_order_tax_amount(intent.tax_details);
        let net = MinorUnit(net_amount_with_tax(intent) as i64);
        if data.payment_attempt.currency is None {
            r == Err::<ApplicationResponse<Self>, ApiErrorResponse>(
                ApiErrorResponse::MissingRequiredField { field_name: "currency" },
            )
        } else if display_amount_failure(net, intent.shipping_cost, tax) is Some {
            r is Err && Some(r->Err_0) == display_amount_failure(net, intent.shipping_cost, tax)
        } else {
            &&& r matches Ok(ApplicationResponse::JsonWithHeaders((resp, headers)))
            &&& resp.net_amount == net
            &&& resp.payment_id == data.payment_attempt.payment_id
            &&& resp.order_tax_amount == tax
            &&& resp.shipping_cost == intent.shipping_cost
            &&& is_display_amounts(
                resp.display_amount,
                net,
                intent.shipping_cost,
                tax,
                data.payment_attempt.currency->Some_0,
            )
            &&& headers@.len() == 0
        }
    }

    fn generate_response(
        payment_data: PaymentData<F>,
        _customer: Option<Customer>,
        _auth_flow: AuthFlow,
        _base_url: &str,
        _operation: Operation,
        _connector_request_reference_id_config: &ConnectorRequestReferenceIdConfig,
        _connector_http_status_code: Option<u16>,
        _external_latency: Option<u128>,
        _is_latency_header_enabled: Option<bool>,
    ) -> (r: RouterResponse<Self>) {
        let mut amount: i64 = payment_data.payment_intent.amount.get_amount_as_i64();
        let shipping_cost = payment_data.payment_intent.shipping_cost;
        match shipping_cost {
            Some(cost) => {
                amount = amount + cost.get_amount_as_i64();
            },
            None => {},
        }
        let order_tax_amount = resolve_intent_order_tax_amount(
            &payment_data.payment_intent.tax_details,
        );
        match order_tax_amount {
            Some(tax_amount) => {
                amount = amount + tax_amount.get_amount_as_i64();
            },
            None => {},
        }
        let currency = match payment_data.payment_attempt.currency {
            Some(currency) => currency,
            None => {
                return Err(ApiErrorResponse::MissingRequiredField { field_name: "currency" });
            },
        };
        let net_amount = MinorUnit::new(amount);
        let display_amount = DisplayAmountOnSdk::foreign_try_from(
            (net_amount, shipping_cost, order_tax_amount, currency),
        )?;
        Ok(
            ApplicationResponse::JsonWithHeaders(
                (
                    PaymentsDynamicTaxCalculationResponse {
                        net_amount,
                        payment_id: payment_data.payment_attempt.payment_id,
                        order_tax_amount,
                        shipping_cost,
                        display_amount,
                    },
                    Vec::new(),
                ),
            ),
        )
    }
}

impl<F> ToResponse<F> for VerifyResponse {
    open spec fn accepts(data: PaymentData<F>) -> bool {
        true
    }

    /// The outcome of verifying a payment method, without headers; there
    /// is none where the stored payment method details cannot be read.
    open spec fn is_response(
        r: RouterResponse<Self>,
        data: PaymentData<F>,
        customer: Option<Customer>,
        base_url: Seq<char>,
        operation: Operation,
        config: ConnectorRequestReferenceIdConfig,
        connector_http_status_code: Option<u16>,
        external_latency: Option<u128>,
    ) -> bool {
        let intent = data.payment_intent;
        let attempt = data.payment_attempt;
        if attempt.payment_method_data is Some && attempt.payment_method_data->Some_0.additional
            is None {
            r == Err::<ApplicationResponse<Self>, ApiErrorResponse>(
                ApiErrorResponse::InvalidDataValue { field_name: "payment_method_data" },
            )
        } else {
            &&& r matches Ok(ApplicationResponse::JsonWithHeaders((resp, headers)))
            &&& headers@.len() == 0
            &&& resp.verify_id == Some(intent.payment_id)
            &&& resp.merchant_id == Some(intent.merchant_id)
            &&& resp.client_secret == intent.client_secret
            &&& resp.customer_id == match customer {
                Some(c) => Some(c.customer_id),
                None => None,
            }
            &&& resp.email == match customer {
                Some(c) => clear_value(c.email),
                None => None,
            }
            &&& resp.name == match customer {
                Some(c) => clear_value(c.name),
                None => None,
            }
            &&& resp.phone == match customer {
                Some(c) => clear_value(c.phone),
                None => None,
            }
            &&& resp.mandate_id == match data.mandate_id {
                Some(ids) => ids.mandate_id,
                None => None,
            }
            &&& resp.payment_method == attempt.payment_method
            &&& resp.payment_method_data == match attempt.payment_method_data {
                Some(stored) => stored.additional,
                None => None,
            }
            &&& resp.payment_token == data.token
            &&& resp.error_code == attempt.error_code
            &&& resp.error_message == attempt.error_message
        }
    }

    fn generate_response(
        payment_data: PaymentData<F>,
        customer: Option<Customer>,
        _auth_flow: AuthFlow,
        _base_url: &str,
        _operation: Operation,
        _connector_request_reference_id_config: &ConnectorRequestReferenceIdConfig,
        _connector_http_status_code: Option<u16>,
        _external_latency: Option<u128>,
        _is_latency_header_enabled: Option<bool>,
    ) -> (r: RouterResponse<Self>) {
        let payment_method_data_response = match payment_data.payment_attempt.payment_method_data {
            Some(stored) => match stored.additional {
                Some(details) => Some(details),
                None => {
                    return Err(
                        ApiErrorResponse::InvalidDataValue { field_name: "payment_method_data" },
                    );
                },
            },
            None => None,
        };
        let (customer_id, email, name, phone) = match customer {
            Some(c) => (
                Some(c.customer_id),
                clear_value_of(&c.email),
                clear_value_of(&c.name),
                clear_value_of(&c.phone),
            ),
            None => (None, None, None, None),
        };
        let mandate_id = match payment_data.mandate_id {
            Some(ids) => ids.mandate_id,
            None => None,
        };
        Ok(
            ApplicationResponse::JsonWithHeaders(
                (
                    VerifyResponse {
                        verify_id: Some(payment_data.payment_intent.payment_id),
                        merchant_id: Some(payment_data.payment_intent.merchant_id),
                        client_secret: payment_data.payment_intent.client_secret,
                        customer_id,
                        email,
                        name,
                        phone,
                        mandate_id,
                        payment_method: payment_data.payment_attempt.payment_method,
                        payment_method_data: payment_method_data_response,
                        payment_token: payment_data.token,
                        error_code: payment_data.payment_attempt.error_code,
                        error_message: payment_data.payment_attempt.error_message,
                    },
                    Vec::new(),
                ),
            ),
        )
    }
}

/// The customer details that the snapshot on the intent gives, under the
/// customer id of the intent; none where the snapshot cannot be read.
pub open spec fn snapshot_customer(intent: PaymentIntent) -> Option<CustomerDetailsResponse> {
    match typed_of(intent.customer_details) {
        Some(data) => Some(
            CustomerDetailsResponse {
                id: intent.customer_id,
                name: data.name,
                phone: data.phone,
                email: data.email,
                phone_country_code: data.phone_country_code,
            },
        ),
        None => None,
    }
}

/// Whether `resp` is the short form of a payment, made of its intent and
/// one attempt alone: stored documents that cannot be read are left out,
/// and what only other records could tell is absent.
pub open spec fn is_summary_response(
    resp: PaymentsResponse,
    pi: PaymentIntent,
    pa: PaymentAttempt,
) -> bool {
    &&& resp.payment_id == pi.payment_id
    &&& resp.merchant_id == pi.merchant_id
    &&& resp.status == pi.status
    &&& resp.amount == pi.amount
    &&& resp.amount_capturable == pa.amount_capturable
    &&& resp.client_secret == pi.client_secret
    &&& resp.created == Some(pi.created_at)
    &&& resp.currency@ == match pi.currency {
        Some(c) => c.name_spec(),
        None => Seq::<char>::empty(),
    }
    &&& resp.description == pi.description
    &&& resp.metadata == pi.metadata
    &&& match pi.order_details {
        Some(list) => resp.order_details is Some && resp.order_details->Some_0@
            == documents_of(list@),
        None => resp.order_details is None,
    }
    &&& resp.customer_id == pi.customer_id
    &&& resp.connector == pa.connector
    &&& resp.payment_method == pa.payment_method
    &&& resp.payment_method_type == pa.payment_method_type
    &&& resp.business_label == pi.business_label
    &&& resp.business_country == pi.business_country
    &&& resp.business_sub_label == pa.business_sub_label
    &&& resp.setup_future_usage == pi.setup_future_usage
    &&& resp.capture_method == pa.capture_method
    &&& resp.authentication_type == pa.authentication_type
    &&& resp.connector_transaction_id == pa.connector_transaction_id
    &&& resp.attempt_count == pi.attempt_count
    &&& resp.profile_id == pi.profile_id
    &&& resp.merchant_connector_id == pa.merchant_connector_id
    &&& resp.payment_method_data == match pa.payment_method_data {
        Some(stored) => stored.with_billing,
        None => None,
    }
    &&& resp.merchant_order_reference_id == pi.merchant_order_reference_id
    &&& resp.customer == snapshot_customer(pi)
    &&& resp.billing == typed_of(pi.billing_details)
    &&& resp.shipping == typed_of(pi.shipping_details)
    &&& resp.net_amount == pa.net_amount
    &&& resp.amount_received is None
    &&& resp.refunds is None
    &&& resp.disputes is None
    &&& resp.attempts is None
    &&& resp.captures is None
    &&& resp.mandate_id is None
    &&& resp.mandate_data is None
    &&& resp.off_session is None
    &&& resp.capture_on is None
    &&& resp.payment_token is None
    &&& resp.email is None
    &&& resp.name is None
    &&& resp.phone is None
    &&& resp.return_url is None
    &&& resp.statement_descriptor_name is None
    &&& resp.statement_descriptor_suffix is None
    &&& resp.next_action is None
    &&& resp.cancellation_reason is None
    &&& resp.error_code is None
    &&& resp.error_message is None
    &&& resp.unified_code is None
    &&& resp.unified_message is None
    &&& resp.payment_experience is None
    &&& resp.connector_label is None
    &&& resp.allowed_payment_method_types is None
    &&& resp.ephemeral_key is None
    &&& resp.manual_retry_allowed is None
    &&& resp.frm_message is None
    &&& resp.connector_metadata is None
    &&& resp.feature_metadata is None
    &&& resp.reference_id is None
    &&& resp.payment_link is None
    &&& resp.surcharge_details is None
    &&& resp.merchant_decision is None
    &&& resp.incremental_authorization_allowed is None
    &&& resp.authorization_count is None
    &&& resp.incremental_authorizations is None
    &&& resp.external_authentication_details is None
    &&& resp.external_3ds_authentication_attempted is None
    &&& resp.expires_on is None
    &&& resp.fingerprint is None
    &&& resp.browser_info is None
    &&& resp.payment_method_id is None
    &&& resp.payment_method_status is None
    &&& resp.updated is None
    &&& resp.charges is None
    &&& resp.frm_metadata is None
    &&& resp.order_tax_amount is None
}

impl PaymentsResponse {
    /// The short form of a payment, made of its intent and one attempt, given as `(intent, attempt)`.
    pub fn foreign_from(value: (PaymentIntent, PaymentAttempt)) -> (r: Self)
        ensures
            is_summary_response(r, value.0, value.1),
    {
        let (pi, pa) = value;
        let currency = match pi.currency {
            Some(c) => String::from_str(c.name()),
            None => String::new(),
        };
        let order_details = match &pi.order_details {
            Some(list) => Some(collect_documents(list)),
            None => None,
        };
        let customer = match pi.customer_details {
            Some(stored) => match stored.typed {
                Some(data) => Some(
                    CustomerDetailsResponse {
                        id: crate::text::clone_opt_string(&pi.customer_id),
                        name: data.name,
                        phone: data.phone,
                        email: data.email,
                        phone_country_code: data.phone_country_code,
                    },
                ),
                None => None,
            },
            None => None,
        };
        let payment_method_data = match pa.payment_method_data {
            Some(stored) => stored.with_billing,
            None => None,
        };
        PaymentsResponse {
            payment_id: pi.payment_id,
            merchant_id: pi.merchant_id,
            status: pi.status,
            amount: pi.amount,
            amount_capturable: pa.amount_capturable,
            client_secret: pi.client_secret,
            created: Some(pi.created_at),
            currency,
            description: pi.description,
            metadata: pi.metadata,
            order_details,
            customer_id: pi.customer_id,
            connector: pa.connector,
            payment_method: pa.payment_method,
            payment_method_type: pa.payment_method_type,
            business_label: pi.business_label,
            business_country: pi.business_country,
            business_sub_label: pa.business_sub_label,
            setup_future_usage: pi.setup_future_usage,
            capture_method: pa.capture_method,
            authentication_type: pa.authentication_type,
            connector_transaction_id: pa.connector_transaction_id,
            attempt_count: pi.attempt_count,
            profile_id: pi.profile_id,
            merchant_connector_id: pa.merchant_connector_id,
            payment_method_data,
            merchant_order_reference_id: pi.merchant_order_reference_id,
            customer,
            billing: take_typed(pi.billing_details),
            shipping: take_typed(pi.shipping_details),
            net_amount: pa.net_amount,
            amount_received: None,
            refunds: None,
            disputes: None,
            attempts: None,
            captures: None,
            mandate_id: None,
            mandate_data: None,
            off_session: None,
            capture_on: None,
            payment_token: None,
            email: None,
            name: None,
            phone: None,
            return_url: None,
            statement_descriptor_name: None,
            statement_descriptor_suffix: None,
            next_action: None,
            cancellation_reason: None,
            error_code: None,
            error_message: None,
            unified_code: None,
            unified_message: None,
            payment_experience: None,
            connector_label: None,
            allowed_payment_method_types: None,
            ephemeral_key: None,
            manual_retry_allowed: None,
            frm_message: None,
            connector_metadata: None,
            feature_metadata: None,
            reference_id: None,
            payment_link: None,
            surcharge_details: None,
            merchant_decision: None,
            incremental_authorization_allowed: None,
            authorization_count: None,
            incremental_authorizations: None,
            external_authentication_details: None,
            external_3ds_authentication_attempted: None,
            expires_on: None,
            fingerprint: None,
            browser_info: None,
            payment_method_id: None,
            payment_method_status: None,
            updated: None,
            charges: None,
            frm_metadata: None,
            order_tax_amount: None,
        }
    }
}

} // verus!
