//! The parts from which the client-facing payment representation is assembled.

use vstd::prelude::*;
use vstd::string::*;

use crate::api::{
    CaptureResponse, CustomerData, CustomerDetailsResponse, EphemeralKeyCreateResponse,
    ExternalAuthenticationDetailsResponse, FrmMessage, MinorUnit, OrderDetails,
    OrderDetailsWithAmount, PaymentChargeResponse, PaymentCharges, RequestSurchargeDetails,
};
use crate::customer::Customer;
use crate::document::Stored;
use crate::domain::first_some;
use crate::enums::PaymentSource;
use crate::storage::{Authentication, Capture, EphemeralKey, FraudCheck, TaxDetails};
use crate::text::{clone_opt_string, decimal_digits, decimal_text};

verus! {

/// The clear value of an optional encryptable field.
pub open spec fn clear_value(value: Option<crate::customer::Encryptable>) -> Option<String> {
    match value {
        Some(v) => Some(v.inner),
        None => None,
    }
}

/// A copy of the clear value of an optional encryptable field.
pub fn clear_value_of(value: &Option<crate::customer::Encryptable>) -> (r: Option<String>)
    ensures
        r == clear_value(*value),
{
    match value {
        Some(v) => Some(v.inner.clone()),
        None => None,
    }
}

/// What the customer store says of the customer.
pub open spec fn customer_table_response(customer: Option<Customer>) -> Option<
    CustomerDetailsResponse,
> {
    match customer {
        Some(c) => Some(
            CustomerDetailsResponse {
                id: Some(c.customer_id),
                name: clear_value(c.name),
                email: clear_value(c.email),
                phone: clear_value(c.phone),
                phone_country_code: c.phone_country_code,
            },
        ),
        None => None,
    }
}

/// The customer details of a response: those of the customer store, with
/// the gaps filled from the snapshot on the intent where that snapshot can
/// be read; those of the customer store alone where it cannot, or where
/// there is none.
pub open spec fn customer_details_response(
    snapshot: Option<Stored<CustomerData>>,
    customer: Option<Customer>,
) -> Option<CustomerDetailsResponse> {
    let table = customer_table_response(customer);
    if snapshot is Some && snapshot->Some_0.typed is Some {
        let data = snapshot->Some_0.typed->Some_0;
        match table {
            Some(t) => Some(
                CustomerDetailsResponse {
                    id: t.id,
                    name: first_some(t.name, data.name),
                    email: first_some(t.email, data.email),
                    phone: first_some(t.phone, data.phone),
                    phone_country_code: first_some(t.phone_country_code, data.phone_country_code),
                },
            ),
            None => Some(
                CustomerDetailsResponse {
                    id: None,
                    name: data.name,
                    email: data.email,
                    phone: data.phone,
                    phone_country_code: data.phone_country_code,
                },
            ),
        }
    } else {
        table
    }
}

fn or_copy(first: Option<String>, second: &Option<String>) -> (r: Option<String>)
    ensures
        r == first_some(first, *second),
{
    match first {
        Some(v) => Some(v),
        None => clone_opt_string(second),
    }
}

/// Resolves the customer details of a response.
pub fn resolve_customer_details(
    snapshot: &Option<Stored<CustomerData>>,
    customer: &Option<Customer>,
) -> (r: Option<CustomerDetailsResponse>)
    ensures
        r == customer_details_response(*snapshot, *customer),
{
    let table = match customer {
        Some(c) => Some(
            CustomerDetailsResponse {
                id: Some(c.customer_id.clone()),
                name: clear_value_of(&c.name),
                email: clear_value_of(&c.email),
                phone: clear_value_of(&c.phone),
                phone_country_code: clone_opt_string(&c.phone_country_code),
            },
        ),
        None => None,
    };
    match snapshot {
        Some(stored) => match &stored.typed {
            Some(data) => match table {
                Some(t) => Some(
                    CustomerDetailsResponse {
                        id: t.id,
                        name: or_copy(t.name, &data.name),
                        email: or_copy(t.email, &data.email),
                        phone: or_copy(t.phone, &data.phone),
                        phone_country_code: or_copy(t.phone_country_code, &data.phone_country_code),
                    },
                ),
                None => Some(
                    CustomerDetailsResponse {
                        id: None,
                        name: clone_opt_string(&data.name),
                        email: clone_opt_string(&data.email),
                        phone: clone_opt_string(&data.phone),
                        phone_country_code: clone_opt_string(&data.phone_country_code),
                    },
                ),
            },
            None => table,
        },
        None => table,
    }
}

/// The texts of a list of headers.
pub open spec fn header_texts(headers: Seq<(String, String)>) -> Seq<(Seq<char>, Seq<char>)> {
    Seq::new(headers.len(), |i: int| (headers[i].0@, headers[i].1@))
}

/// The headers sent beside a payment response: the HTTP status that the
/// connector answered with, where the confirm came from, and how long the
/// connector took; each only when it is known, and in this order.
pub open spec fn response_headers(
    connector_http_status_code: Option<u16>,
    payment_confirm_source: Option<PaymentSource>,
    external_latency: Option<u128>,
) -> Seq<(Seq<char>, Seq<char>)> {
    let status = match connector_http_status_code {
        Some(code) => seq![("connector_http_status_code"@, decimal_digits(code as nat))],
        None => Seq::empty(),
    };
    let source = match payment_confirm_source {
        Some(s) => seq![("payment_confirm_source"@, s.name_spec())],
        None => Seq::empty(),
    };
    let latency = match external_latency {
        Some(l) => seq![("x-hs-latency"@, decimal_digits(l as nat))],
        None => Seq::empty(),
    };
    status + source + latency
}

/// Builds the headers sent beside a payment response.
pub fn build_response_headers(
    connector_http_status_code: Option<u16>,
    payment_confirm_source: Option<PaymentSource>,
    external_latency: Option<u128>,
) -> (r: Vec<(String, String)>)
    ensures
        header_texts(r@) == response_headers(
            connector_http_status_code,
            payment_confirm_source,
            external_latency,
        ),
{
    let mut headers: Vec<(String, String)> = Vec::new();
    match connector_http_status_code {
        Some(code) => {
            headers.push(
                (String::from_str("connector_http_status_code"), decimal_text(code as u128)),
            );
        },
        None => {},
    }
    match payment_confirm_source {
        Some(source) => {
            headers.push(
                (String::from_str("payment_confirm_source"), String::from_str(source.name())),
            );
        },
        None => {},
    }
    match external_latency {
        Some(latency) => {
            headers.push((String::from_str("x-hs-latency"), decimal_text(latency)));
        },
        None => {},
    }
    headers
}

/// The tax on the order: that of the attempt, else that computed for the
/// payment method type, else the default one.
pub open spec fn order_tax_amount(
    attempt_tax: Option<MinorUnit>,
    tax_details: Option<TaxDetails>,
) -> Option<MinorUnit> {
    if attempt_tax is Some {
        attempt_tax
    } else {
        intent_order_tax_amount(tax_details)
    }
}

/// The tax on the order as the intent holds it: that computed for the
/// payment method type, else the default one.
pub open spec fn intent_order_tax_amount(tax_details: Option<TaxDetails>) -> Option<MinorUnit> {
    match tax_details {
        Some(tax) => match tax.payment_method_type {
            Some(t) => Some(t.order_tax_amount),
            None => match tax.default {
                Some(t) => Some(t.order_tax_amount),
                None => None,
            },
        },
        None => None,
    }
}

/// The tax on the order as the intent holds it.
pub fn resolve_intent_order_tax_amount(tax_details: &Option<TaxDetails>) -> (r: Option<MinorUnit>)
    ensures
        r == intent_order_tax_amount(*tax_details),
{
    match tax_details {
        Some(tax) => match tax.payment_method_type {
            Some(t) => Some(t.order_tax_amount),
            None => match tax.default {
                Some(t) => Some(t.order_tax_amount),
                None => None,
            },
        },
        None => None,
    }
}

/// The tax on the order: that of the attempt, else that of the intent.
pub fn resolve_order_tax_amount(
    attempt_tax: Option<MinorUnit>,
    tax_details: &Option<TaxDetails>,
) -> (r: Option<MinorUnit>)
    ensures
        r == order_tax_amount(attempt_tax, *tax_details),
{
    match attempt_tax {
        Some(t) => Some(t),
        None => resolve_intent_order_tax_amount(tax_details),
    }
}

/// The surcharge that the attempt asks for, if any.
pub open spec fn surcharge_details(
    surcharge_amount: Option<MinorUnit>,
    tax_amount: Option<MinorUnit>,
) -> Option<RequestSurchargeDetails> {
    match surcharge_amount {
        Some(amount) => Some(RequestSurchargeDetails { surcharge_amount: amount, tax_amount }),
        None => None,
    }
}

/// The client-facing form of one capture.
pub open spec fn capture_response(capture: Capture) -> CaptureResponse {
    CaptureResponse {
        capture_id: capture.capture_id,
        status: capture.status,
        amount: capture.amount,
        currency: capture.currency,
        connector: capture.connector,
        authorized_attempt_id: capture.authorized_attempt_id,
        connector_capture_id: capture.connector_capture_id,
        capture_sequence: capture.capture_sequence,
        error_message: capture.error_message,
        error_code: capture.error_code,
        error_reason: capture.error_reason,
        reference_id: capture.connector_response_reference_id,
    }
}

/// The client-facing forms of a list of captures, in the same order.
pub open spec fn capture_responses(captures: Seq<Capture>) -> Seq<CaptureResponse> {
    Seq::new(captures.len(), |i: int| capture_response(captures[i]))
}

/// Turns a capture into its client-facing form.
pub fn to_capture_response(capture: &Capture) -> (r: CaptureResponse)
    ensures
        r == capture_response(*capture),
{
    CaptureResponse {
        capture_id: capture.capture_id.clone(),
        status: capture.status,
        amount: capture.amount,
        currency: capture.currency,
        connector: capture.connector.clone(),
        authorized_attempt_id: capture.authorized_attempt_id.clone(),
        connector_capture_id: clone_opt_string(&capture.connector_capture_id),
        capture_sequence: capture.capture_sequence,
        error_message: clone_opt_string(&capture.error_message),
        error_code: clone_opt_string(&capture.error_code),
        error_reason: clone_opt_string(&capture.error_reason),
        reference_id: clone_opt_string(&capture.connector_response_reference_id),
    }
}

/// Turns a list of captures into their client-facing forms, in the same order.
pub fn to_capture_responses(captures: &Vec<Capture>) -> (r: Vec<CaptureResponse>)
    ensures
        r@ == capture_responses(captures@),
{
    let mut out: Vec<CaptureResponse> = Vec::new();
    let mut i: usize = 0;
    while i < captures.len()
        invariant
            i <= captures.len(),
            out@.len() == i,
            forall|j: int| 0 <= j < i ==> out@[j] == capture_response(captures@[j]),
        decreases captures.len() - i,
    {
        out.push(to_capture_response(&captures[i]));
        i += 1;
    }
    out
}

/// Whether `message` shows the fraud check `check`.
pub open spec fn is_frm_message(message: FrmMessage, check: FraudCheck) -> bool {
    &&& message.frm_name == check.frm_name
    &&& message.frm_transaction_id == check.frm_transaction_id
    &&& message.frm_transaction_type is Some
    &&& message.frm_transaction_type->Some_0@ == check.frm_transaction_type.name_spec()
    &&& message.frm_status is Some
    &&& message.frm_status->Some_0@ == check.frm_status.name_spec()
    &&& message.frm_score == check.frm_score
    &&& message.frm_reason == check.frm_reason
    &&& message.frm_error == check.frm_error
}

impl FrmMessage {
    /// The client-facing form of a fraud check.
    pub fn foreign_from(fraud_check: FraudCheck) -> (r: Self)
        ensures
            is_frm_message(r, fraud_check),
    {
        FrmMessage {
            frm_name: fraud_check.frm_name,
            frm_transaction_id: fraud_check.frm_transaction_id,
            frm_transaction_type: Some(String::from_str(fraud_check.frm_transaction_type.name())),
            frm_status: Some(String::from_str(fraud_check.frm_status.name())),
            frm_score: fraud_check.frm_score,
            frm_reason: fraud_check.frm_reason,
            frm_error: fraud_check.frm_error,
        }
    }
}

impl EphemeralKeyCreateResponse {
    /// The client-facing form of the ephemeral key `from`.
    pub open spec fn of_key(from: EphemeralKey) -> Self {
        EphemeralKeyCreateResponse {
            customer_id: from.customer_id,
            created_at: from.created_at,
            expires: from.expires,
            secret: from.secret,
        }
    }

    /// The client-facing form of an ephemeral key.
    pub fn foreign_from(from: EphemeralKey) -> (r: Self)
        ensures
            r == Self::of_key(from),
    {
        EphemeralKeyCreateResponse {
            customer_id: from.customer_id,
            created_at: from.created_at,
            expires: from.expires,
            secret: from.secret,
        }
    }
}

/// The client-facing form of an external authentication.
pub open spec fn external_authentication_details(
    authentication: Option<Authentication>,
) -> Option<ExternalAuthenticationDetailsResponse> {
    match authentication {
        Some(a) => Some(
            ExternalAuthenticationDetailsResponse {
                authentication_flow: a.authentication_flow,
                electronic_commerce_indicator: a.electronic_commerce_indicator,
                status: a.authentication_status,
                ds_transaction_id: a.ds_transaction_id,
                version: a.message_version,
                error_code: a.error_code,
                error_message: a.error_message,
            },
        ),
        None => None,
    }
}

/// Turns an external authentication into its client-facing form.
pub fn to_external_authentication_details(authentication: &Option<Authentication>) -> (r: Option<
    ExternalAuthenticationDetailsResponse,
>)
    ensures
        r == external_authentication_details(*authentication),
{
    match authentication {
        Some(a) => Some(
            ExternalAuthenticationDetailsResponse {
                authentication_flow: clone_opt_string(&a.authentication_flow),
                electronic_commerce_indicator: clone_opt_string(&a.electronic_commerce_indicator),
                status: a.authentication_status,
                ds_transaction_id: clone_opt_string(&a.ds_transaction_id),
                version: clone_opt_string(&a.message_version),
                error_code: clone_opt_string(&a.error_code),
                error_message: clone_opt_string(&a.error_message),
            },
        ),
        None => None,
    }
}

/// The split-payment part of a response.
pub open spec fn charges_response(
    charges: Option<Stored<PaymentCharges>>,
    charge_id: Option<String>,
) -> Option<PaymentChargeResponse> {
    if charges is Some && charges->Some_0.typed is Some {
        let c = charges->Some_0.typed->Some_0;
        Some(
            PaymentChargeResponse {
                charge_id,
                charge_type: c.charge_type,
                application_fees: c.fees,
                transfer_account_id: c.transfer_account_id,
            },
        )
    } else {
        None
    }
}

/// The one-element list that describes an order of a single product.
pub open spec fn order_of_one(order_amount: i64, order_details: OrderDetails) -> Seq<
    OrderDetailsWithAmount,
> {
    seq![
        OrderDetailsWithAmount {
            product_name: order_details.product_name,
            quantity: order_details.quantity,
            amount: order_amount,
            requires_shipping: order_details.requires_shipping,
            product_img_link: order_details.product_img_link,
            product_id: order_details.product_id,
            category: order_details.category,
            sub_category: order_details.sub_category,
            brand: order_details.brand,
            product_type: order_details.product_type,
            product_tax_code: order_details.product_tax_code,
        },
    ]
}

/// Turns the details of a single product into the list form of an order.
pub fn change_order_details_to_new_type(order_amount: i64, order_details: OrderDetails) -> (r:
    Option<Vec<OrderDetailsWithAmount>>)
    ensures
        r is Some,
        r->Some_0@ == order_of_one(order_amount, order_details),
{
    let mut list: Vec<OrderDetailsWithAmount> = Vec::new();
    list.push(
        OrderDetailsWithAmount {
            product_name: order_details.product_name,
            quantity: order_details.quantity,
            amount: order_amount,
            product_img_link: order_details.product_img_link,
            requires_shipping: order_details.requires_shipping,
            product_id: order_details.product_id,
            category: order_details.category,
            sub_category: order_details.sub_category,
            brand: order_details.brand,
            product_type: order_details.product_type,
            product_tax_code: order_details.product_tax_code,
        },
    );
    Some(list)
}

} // verus!
