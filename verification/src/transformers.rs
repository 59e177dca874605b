//! The request of each payment operation, built from the records of a payment.

use vstd::prelude::*;
use vstd::string::*;

use crate::api::{MinorUnit, OrderDetailsWithAmount, PaymentMethodData};
use crate::connector::{handle_of, ConnectorData, ConnectorTransactionId};
use crate::customer::Customer;
use crate::document::{all_readable, typed_items, typed_of, Stored};

use crate::enums::{AuthenticationStatus, Connector, GetToken, RequestIncrementalAuthorization};
use crate::errors::ApiErrorResponse;
use crate::helpers::{
    complete_authorize_url, create_complete_authorize_url, create_redirect_url, create_webhook_url,
    redirect_url, webhook_url,
};
use crate::response_parts::{clear_value, clear_value_of};
use crate::storage::{Authentication, Capture, PaymentAttempt, PaymentIntent};
use crate::domain::PaymentAddress;
use crate::text::clone_opt_string;
use crate::utils::billing_country;
use crate::types::{
    AuthenticationData, BrowserInformation, CompleteAuthorizeData,
    CompleteAuthorizeRedirectResponse, MandateIds, MultipleCaptureData, MultipleCaptureRequestData,
    PaymentData, PaymentsApproveData, PaymentsAuthorizeData, PaymentsCancelData,
    PaymentsCaptureData, PaymentsIncrementalAuthorizationData, PaymentsPreProcessingData,
    PaymentsRejectData, PaymentsSessionData, PaymentsSyncData, ResponseId,
    SdkPaymentsSessionUpdateData, SetupMandateRequestData, SurchargeDetails, SyncRequestType,
};

verus! {

/// The records from which the request of an operation is built.
#[derive(Debug)]
pub struct PaymentAdditionalData<'a, F> {
    pub router_base_url: String,
    pub connector_name: &'a str,
    pub payment_data: PaymentData<F>,
    pub customer_data: &'a Option<Customer>,
}

/// The request payload of one payment operation.
pub trait FlowRequest<F>: Sized {
    /// The records from which the request can be built at all.
    spec fn accepts(data: PaymentAdditionalData<'_, F>) -> bool;

    /// Why no request can be built from the records, if so.
    spec fn failure(data: PaymentAdditionalData<'_, F>) -> Option<ApiErrorResponse>;

    /// Whether `self` is the request that the records call for.
    spec fn is_request(&self, data: PaymentAdditionalData<'_, F>) -> bool;

    fn try_from(additional_data: PaymentAdditionalData<'_, F>) -> (r: Result<
        Self,
        ApiErrorResponse,
    >)
        requires
            Self::accepts(additional_data),
        ensures
            match r {
                Ok(request) => Self::failure(additional_data) is None && request.is_request(
                    additional_data,
                ),
                Err(e) => Self::failure(additional_data) == Some(e),
            },
    ;
}

/// Whether stored browser details are there but cannot be read.
pub open spec fn browser_info_unreadable(attempt: PaymentAttempt) -> bool {
    attempt.browser_info is Some && attempt.browser_info->Some_0.typed is None
}

fn read_browser_info(stored: Option<Stored<BrowserInformation>>) -> (r: Result<
    Option<BrowserInformation>,
    ApiErrorResponse,
>)
    ensures
        match r {
            Ok(info) => !(stored is Some && stored->Some_0.typed is None) && info == typed_of(
                stored,
            ),
            Err(e) => stored is Some && stored->Some_0.typed is None && e
                == (ApiErrorResponse::InvalidDataValue { field_name: "browser_info" }),
        },
{
    match stored {
        Some(s) => match s.typed {
            Some(info) => Ok(Some(info)),
            None => Err(ApiErrorResponse::InvalidDataValue { field_name: "browser_info" }),
        },
        None => Ok(None),
    }
}

fn check_browser_info(stored: &Option<Stored<BrowserInformation>>) -> (r: Result<
    (),
    ApiErrorResponse,
>)
    ensures
        match r {
            Ok(_) => !(stored is Some && stored->Some_0.typed is None),
            Err(e) => stored is Some && stored->Some_0.typed is None && e
                == (ApiErrorResponse::InvalidDataValue { field_name: "browser_info" }),
        },
{
    match stored {
        Some(s) => {
            if s.typed.is_none() {
                Err(ApiErrorResponse::InvalidDataValue { field_name: "browser_info" })
            } else {
                Ok(())
            }
        },
        None => Ok(()),
    }
}

/// Whether the order details on the intent hold an entry that cannot be read.
pub open spec fn order_details_unreadable(intent: PaymentIntent) -> bool {
    intent.order_details is Some && !all_readable(intent.order_details->Some_0@)
}

/// Whether `details` are the order details on the intent, read.
pub open spec fn is_order_details(
    details: Option<Vec<OrderDetailsWithAmount>>,
    intent: PaymentIntent,
) -> bool {
    match intent.order_details {
        Some(list) => details is Some && details->Some_0@ == typed_items(list@),
        None => details is None,
    }
}

fn read_order_details(stored: &Option<Vec<Stored<OrderDetailsWithAmount>>>) -> (r: Result<
    Option<Vec<OrderDetailsWithAmount>>,
    ApiErrorResponse,
>)
    ensures
        match r {
            Ok(details) => match *stored {
                Some(list) => all_readable(list@) && details is Some && details->Some_0@
                    == typed_items(list@),
                None => details is None,
            },
            Err(e) => stored is Some && !all_readable(stored->Some_0@) && e
                == (ApiErrorResponse::InvalidDataValue { field_name: "OrderDetailsWithAmount" }),
        },
{
    match stored {
        None => Ok(None),
        Some(list) => {
            let mut out: Vec<OrderDetailsWithAmount> = Vec::new();
            let mut i: usize = 0;
            while i < list.len()
                invariant
                    *stored == Some(*list),
                    i <= list.len(),
                    out@.len() == i,
                    forall|j: int| 0 <= j < i ==> (#[trigger] list@[j]).typed is Some,
                    forall|j: int| 0 <= j < i ==> out@[j] == list@[j].typed->Some_0,
                decreases list.len() - i,
            {
                match &list[i].typed {
                    Some(item) => {
                        out.push(item.clone());
                    },
                    None => {
                        return Err(
                            ApiErrorResponse::InvalidDataValue {
                                field_name: "OrderDetailsWithAmount",
                            },
                        );
                    },
                }
                i += 1;
            }
            Ok(Some(out))
        },
    }
}

/// The amount that a connector is asked for: the surcharge-adjusted one
/// where a surcharge applies, else the amount of the payment.
pub open spec fn effective_amount<F>(d: PaymentData<F>) -> MinorUnit {
    match d.surcharge_details {
        Some(surcharge) => surcharge.final_amount,
        None => d.amount,
    }
}

fn resolve_amount(surcharge_details: &Option<SurchargeDetails>, amount: MinorUnit) -> (r: MinorUnit)
    ensures
        r == match *surcharge_details {
            Some(surcharge) => surcharge.final_amount,
            None => amount,
        },
{
    match surcharge_details {
        Some(surcharge) => surcharge.final_amount,
        None => amount,
    }
}

/// Whether the merchant asked for incremental authorisation, or left it to the default.
pub open spec fn incremental_authorization_requested(intent: PaymentIntent) -> bool {
    intent.request_incremental_authorization == Some(RequestIncrementalAuthorization::True)
        || intent.request_incremental_authorization == Some(
        RequestIncrementalAuthorization::Default,
    )
}

fn is_incremental_authorization_requested(intent: &PaymentIntent) -> (r: bool)
    ensures
        r == incremental_authorization_requested(*intent),
{
    match intent.request_incremental_authorization {
        Some(RequestIncrementalAuthorization::True) => true,
        Some(RequestIncrementalAuthorization::Default) => true,
        _ => false,
    }
}

/// The clear name of the customer, if known.
pub open spec fn customer_name(customer: Option<Customer>) -> Option<String> {
    match customer {
        Some(c) => clear_value(c.name),
        None => None,
    }
}

/// The id of the customer, if there is one.
pub open spec fn customer_id(customer: Option<Customer>) -> Option<String> {
    match customer {
        Some(c) => Some(c.customer_id),
        None => None,
    }
}

fn copy_customer_name(customer: &Option<Customer>) -> (r: Option<String>)
    ensures
        r == customer_name(*customer),
{
    match customer {
        Some(c) => clear_value_of(&c.name),
        None => None,
    }
}

fn copy_customer_id(customer: &Option<Customer>) -> (r: Option<String>)
    ensures
        r == customer_id(*customer),
{
    match customer {
        Some(c) => Some(c.customer_id.clone()),
        None => None,
    }
}

/// Whether `url` is a present text equal to `expected`.
pub open spec fn is_url(url: Option<String>, expected: Seq<char>) -> bool {
    url is Some && url->Some_0@ == expected
}

/// The text of the credentials identifier of a payment, if it has one.
pub open spec fn creds_text(creds_identifier: Option<String>) -> Option<Seq<char>> {
    match creds_identifier {
        Some(c) => Some(c@),
        None => None,
    }
}

fn return_url_of(
    router_base_url: &str,
    attempt: &PaymentAttempt,
    connector_name: &str,
    creds_identifier: &Option<String>,
) -> (r: String)
    ensures
        r@ == redirect_url(
            router_base_url@,
            attempt.payment_id@,
            attempt.merchant_id@,
            connector_name@,
            creds_text(*creds_identifier),
        ),
{
    match creds_identifier {
        Some(creds) => create_redirect_url(
            router_base_url,
            attempt,
            connector_name,
            Some(creds.as_str()),
        ),
        None => create_redirect_url(router_base_url, attempt, connector_name, None),
    }
}

/// Why an authentication record proves no completed authentication, if
/// so: it did not succeed, or it succeeded without an authentication value.
pub open spec fn authentication_data_failure(authentication: Authentication) -> Option<
    ApiErrorResponse,
> {
    if authentication.authentication_status != AuthenticationStatus::Success {
        Some(ApiErrorResponse::PaymentAuthenticationFailed)
    } else if authentication.cavv is None {
        Some(ApiErrorResponse::InternalServerError)
    } else {
        None
    }
}

impl AuthenticationData {
    /// The proof that a successful authentication record gives.
    pub open spec fn of_record(authentication: Authentication) -> Self {
        AuthenticationData {
            eci: authentication.electronic_commerce_indicator,
            cavv: authentication.cavv->Some_0,
            threeds_server_transaction_id: authentication.threeds_server_transaction_id,
            message_version: authentication.message_version,
        }
    }

    /// Takes the proof of a completed authentication from its record.
    pub fn foreign_try_from(authentication: &Authentication) -> (r: Result<Self, ApiErrorResponse>)
        ensures
            match r {
                Ok(data) => authentication_data_failure(*authentication) is None && data
                    == Self::of_record(*authentication),
                Err(e) => authentication_data_failure(*authentication) == Some(e),
            },
    {
        match authentication.authentication_status {
            AuthenticationStatus::Success => match &authentication.cavv {
                Some(cavv) => Ok(
                    AuthenticationData {
                        eci: clone_opt_string(&authentication.electronic_commerce_indicator),
                        cavv: cavv.clone(),
                        threeds_server_transaction_id: clone_opt_string(
                            &authentication.threeds_server_transaction_id,
                        ),
                        message_version: clone_opt_string(&authentication.message_version),
                    },
                ),
                None => Err(ApiErrorResponse::InternalServerError),
            },
            _ => Err(ApiErrorResponse::PaymentAuthenticationFailed),
        }
    }
}

fn has_billing_country(address: &PaymentAddress) -> (r: bool)
    ensures
        r == (billing_country(*address) is Some),
{
    match &address.billing {
        Some(billing) => match &billing.address {
            Some(details) => details.country.is_some(),
            None => false,
        },
        None => false,
    }
}

/// The payment method data of an authorisation: that of the payment, or
/// the mandate placeholder where the payment recurs under a mandate and
/// brings no method of its own.
pub open spec fn authorize_method_data<F>(d: PaymentData<F>) -> Option<PaymentMethodData> {
    if d.payment_method_data is Some {
        d.payment_method_data
    } else if d.mandate_id is Some {
        Some(PaymentMethodData::MandatePayment)
    } else {
        None
    }
}

/// The order category that the Noon connector is to be told, if the
/// connector metadata of the intent can be read and hold one.
pub open spec fn order_category(intent: PaymentIntent) -> Option<String> {
    match typed_of(intent.connector_metadata) {
        Some(metadata) => match metadata.noon {
            Some(noon) => noon.order_category,
            None => None,
        },
        None => None,
    }
}

/// `Some(true)` where the payment runs under a mandate.
pub open spec fn off_session(mandate_id: Option<MandateIds>) -> Option<bool> {
    match mandate_id {
        Some(_) => Some(true),
        None => None,
    }
}

impl<F> FlowRequest<F> for PaymentsAuthorizeData {
    open spec fn accepts(data: PaymentAdditionalData<'_, F>) -> bool {
        true
    }

    /// The checks run in this order: the browser details can be read; so
    /// can each entry of the order details of the intent, and its
    /// split-payment instructions; there is payment method data; the
    /// billing address names a country; an authentication record, where
    /// there is one, proves a completed authentication. Connector metadata
    /// of the intent that cannot be read are no failure: they give no
    /// order category.
    open spec fn failure(data: PaymentAdditionalData<'_, F>) -> Option<ApiErrorResponse> {
        let d = data.payment_data;
        let intent = d.payment_intent;
        if browser_info_unreadable(d.payment_attempt) {
            Some(ApiErrorResponse::InvalidDataValue { field_name: "browser_info" })
        } else if order_details_unreadable(intent) {
            Some(ApiErrorResponse::InvalidDataValue { field_name: "OrderDetailsWithAmount" })
        } else if intent.charges is Some && intent.charges->Some_0.typed is None {
            Some(ApiErrorResponse::InternalServerError)
        } else if authorize_method_data(d) is None {
            Some(ApiErrorResponse::MissingRequiredField { field_name: "payment_method_data" })
        } else if billing_country(d.address) is None {
            Some(ApiErrorResponse::MissingRequiredField { field_name: "billing.address.country" })
        } else if d.authentication is Some {
            authentication_data_failure(d.authentication->Some_0)
        } else {
            None
        }
    }

    open spec fn is_request(&self, data: PaymentAdditionalData<'_, F>) -> bool {
        let d = data.payment_data;
        let intent = d.payment_intent;
        let attempt = d.payment_attempt;
        let base = data.router_base_url@;
        let connector = data.connector_name@;
        &&& Some(self.payment_method_data) == authorize_method_data(d)
        &&& self.setup_future_usage == intent.setup_future_usage
        &&& self.mandate_id == d.mandate_id
        &&& self.off_session == off_session(d.mandate_id)
        &&& self.setup_mandate_details == d.setup_mandate
        &&& self.confirm == attempt.confirm
        &&& self.statement_descriptor_suffix == intent.statement_descriptor_suffix
        &&& self.statement_descriptor == intent.statement_descriptor_name
        &&& self.capture_method == attempt.capture_method
        &&& self.amount == effective_amount(d).0
        &&& self.minor_amount == effective_amount(d)
        &&& self.currency == d.currency
        &&& self.browser_info == typed_of(attempt.browser_info)
        &&& self.email == d.email
        &&& self.customer_name == customer_name(*data.customer_data)
        &&& self.payment_experience == attempt.payment_experience
        &&& is_order_details(self.order_details, intent)
        &&& self.order_category == order_category(intent)
        &&& self.session_token is None
        &&& self.enrolled_for_3ds
        &&& self.related_transaction_id is None
        &&& self.payment_method_type == attempt.payment_method_type
        &&& is_url(
            self.router_return_url,
            redirect_url(
                base,
                attempt.payment_id@,
                attempt.merchant_id@,
                connector,
                creds_text(d.creds_identifier),
            ),
        )
        &&& is_url(self.webhook_url, webhook_url(base, attempt.merchant_id@, connector))
        &&& is_url(
            self.complete_authorize_url,
            complete_authorize_url(base, attempt.payment_id@, attempt.merchant_id@, connector),
        )
        &&& self.customer_id == customer_id(*data.customer_data)
        &&& self.surcharge_details == d.surcharge_details
        &&& self.request_incremental_authorization == incremental_authorization_requested(intent)
        &&& self.metadata == intent.metadata
        &&& self.authentication_data == match d.authentication {
            Some(a) => Some(AuthenticationData::of_record(a)),
            None => None,
        }
        &&& self.customer_acceptance == d.customer_acceptance
        &&& self.charges == typed_of(intent.charges)
        &&& self.merchant_order_reference_id == intent.merchant_order_reference_id
    }

    fn try_from(additional_data: PaymentAdditionalData<'_, F>) -> (r: Result<
        Self,
        ApiErrorResponse,
    >) {
        let PaymentAdditionalData { router_base_url, connector_name, payment_data, customer_data } =
            additional_data;
        let complete_authorize_url = Some(
            create_complete_authorize_url(
                router_base_url.as_str(),
                &payment_data.payment_attempt,
                connector_name,
            ),
        );
        let webhook_url = Some(
            create_webhook_url(
                router_base_url.as_str(),
                payment_data.payment_attempt.merchant_id.as_str(),
                connector_name,
            ),
        );
        let router_return_url = Some(
            return_url_of(
                router_base_url.as_str(),
                &payment_data.payment_attempt,
                connector_name,
                &payment_data.creds_identifier,
            ),
        );
        let request_incremental_authorization = is_incremental_authorization_requested(
            &payment_data.payment_intent,
        );
        let amount = resolve_amount(&payment_data.surcharge_details, payment_data.amount);
        let customer_name = copy_customer_name(customer_data);
        let customer_id = copy_customer_id(customer_data);

        let browser_info = read_browser_info(payment_data.payment_attempt.browser_info)?;
        let order_category = match payment_data.payment_intent.connector_metadata {
            Some(stored) => match stored.typed {
                Some(metadata) => match metadata.noon {
                    Some(noon) => noon.order_category,
                    None => None,
                },
                None => None,
            },
            None => None,
        };
        let order_details = read_order_details(&payment_data.payment_intent.order_details)?;
        let charges = match payment_data.payment_intent.charges {
            Some(stored) => match stored.typed {
                Some(charges) => Some(charges),
                None => {
                    return Err(ApiErrorResponse::InternalServerError);
                },
            },
            None => None,
        };
        let payment_method_data = match payment_data.payment_method_data {
            Some(method) => method,
            None => {
                if payment_data.mandate_id.is_some() {
                    PaymentMethodData::MandatePayment
                } else {
                    return Err(
                        ApiErrorResponse::MissingRequiredField {
                            field_name: "payment_method_data",
                        },
                    );
                }
            },
        };
        if !has_billing_country(&payment_data.address) {
            return Err(
                ApiErrorResponse::MissingRequiredField { field_name: "billing.address.country" },
            );
        }
        let authentication_data = match &payment_data.authentication {
            Some(authentication) => Some(AuthenticationData::foreign_try_from(authentication)?),
            None => None,
        };
        let off_session = match &payment_data.mandate_id {
            Some(_) => Some(true),
            None => None,
        };
        Ok(
            PaymentsAuthorizeData {
                payment_method_data,
                setup_future_usage: payment_data.payment_intent.setup_future_usage,
                mandate_id: payment_data.mandate_id,
                off_session,
                setup_mandate_details: payment_data.setup_mandate,
                confirm: payment_data.payment_attempt.confirm,
                statement_descriptor_suffix: payment_data.payment_intent.statement_descriptor_suffix,
                statement_descriptor: payment_data.payment_intent.statement_descriptor_name,
                capture_method: payment_data.payment_attempt.capture_method,
                amount: amount.get_amount_as_i64(),
                minor_amount: amount,
                currency: payment_data.currency,
                browser_info,
                email: payment_data.email,
                customer_name,
                payment_experience: payment_data.payment_attempt.payment_experience,
                order_details,
                order_category,
                session_token: None,
                enrolled_for_3ds: true,
                related_transaction_id: None,
                payment_method_type: payment_data.payment_attempt.payment_method_type,
                router_return_url,
                webhook_url,
                complete_authorize_url,
                customer_id,
                surcharge_details: payment_data.surcharge_details,
                request_incremental_authorization,
                metadata: payment_data.payment_intent.metadata,
                authentication_data,
                customer_acceptance: payment_data.customer_acceptance,
                charges,
                merchant_order_reference_id: payment_data.payment_intent.merchant_order_reference_id,
            },
        )
    }
}

/// An authorisation for a payment whose billing address names no country
/// is never built; and where the stored documents can be read and there is
/// payment method data, the failure names exactly the missing path.
pub proof fn authorize_needs_a_billing_country<F>(data: PaymentAdditionalData<'_, F>)
    requires
        billing_country(data.payment_data.address) is None,
    ensures
        <PaymentsAuthorizeData as FlowRequest<F>>::failure(data) is Some,
        !browser_info_unreadable(data.payment_data.payment_attempt) && !order_details_unreadable(
            data.payment_data.payment_intent,
        ) && !(data.payment_data.payment_intent.charges is Some
            && data.payment_data.payment_intent.charges->Some_0.typed is None)
            && authorize_method_data(data.payment_data) is Some ==> <PaymentsAuthorizeData as FlowRequest<
            F,
        >>::failure(data) == Some(
            ApiErrorResponse::MissingRequiredField { field_name: "billing.address.country" },
        ),
{
}

/// The document of the connector metadata of an attempt, if it has any.
pub open spec fn metadata_document(attempt: PaymentAttempt) -> Option<serde_json::Value> {
    match attempt.connector_metadata {
        Some(metadata) => Some(metadata.document),
        None => None,
    }
}

fn take_metadata_document(metadata: Option<crate::storage::AttemptMetadata>) -> (r: Option<
    serde_json::Value,
>)
    ensures
        r == match metadata {
            Some(m) => Some(m.document),
            None => None,
        },
{
    match metadata {
        Some(m) => Some(m.document),
        None => None,
    }
}

/// The connector ids of the captures that are still pending, in the order of the captures.
pub open spec fn pending_capture_ids(captures: Seq<Capture>) -> Seq<String>
    decreases captures.len(),
{
    if captures.len() == 0 {
        Seq::empty()
    } else {
        let earlier = pending_capture_ids(captures.drop_last());
        let capture = captures.last();
        if capture.status == crate::enums::CaptureStatus::Pending && capture.connector_capture_id
            is Some {
            earlier.push(capture.connector_capture_id->Some_0)
        } else {
            earlier
        }
    }
}

impl MultipleCaptureData {
    /// How many captures the attempt has, as a sequence number.
    pub fn get_captures_count(&self) -> (r: Result<i16, ApiErrorResponse>)
        ensures
            match r {
                Ok(count) => count == self.all_captures@.len(),
                Err(e) => self.all_captures@.len() > i16::MAX && e
                    == ApiErrorResponse::InternalServerError,
            },
    {
        let count = self.all_captures.len();
        if count <= 32767 {
            Ok(count as i16)
        } else {
            Err(ApiErrorResponse::InternalServerError)
        }
    }

    /// The connector ids of the captures that are still pending.
    pub fn get_pending_connector_capture_ids(&self) -> (r: Vec<String>)
        ensures
            r@ == pending_capture_ids(self.all_captures@),
    {
        let mut out: Vec<String> = Vec::new();
        let mut i: usize = 0;
        while i < self.all_captures.len()
            invariant
                i <= self.all_captures.len(),
                out@ == pending_capture_ids(self.all_captures@.take(i as int)),
            decreases self.all_captures.len() - i,
        {
            let capture = &self.all_captures[i];
            assert(self.all_captures@.take(i + 1).drop_last() =~= self.all_captures@.take(
                i as int,
            ));
            let pending = matches!(capture.status, crate::enums::CaptureStatus::Pending);
            if pending {
                match &capture.connector_capture_id {
                    Some(id) => {
                        out.push(id.clone());
                    },
                    None => {},
                }
            }
            i += 1;
        }
        assert(self.all_captures@.take(i as int) =~= self.all_captures@);
        out
    }
}

/// How the transaction of an attempt is named in a sync.
pub open spec fn sync_transaction_id(attempt: PaymentAttempt) -> ResponseId {
    match attempt.connector_transaction_id {
        Some(id) => ResponseId::ConnectorTransactionId(id),
        None => ResponseId::NoResponseId,
    }
}

/// Whether `sync_type` asks for what the capture data call for: the
/// pending captures in multiple-capture mode, the payment alone otherwise.
pub open spec fn is_sync_type(
    sync_type: SyncRequestType,
    capture_data: Option<MultipleCaptureData>,
) -> bool {
    match capture_data {
        Some(captures) => sync_type matches SyncRequestType::MultipleCaptureSync(ids) && ids@
            == pending_capture_ids(captures.all_captures@),
        None => sync_type is SinglePaymentSync,
    }
}

impl<F> FlowRequest<F> for PaymentsSyncData {
    open spec fn accepts(data: PaymentAdditionalData<'_, F>) -> bool {
        true
    }

    /// A sync request can always be built.
    open spec fn failure(data: PaymentAdditionalData<'_, F>) -> Option<ApiErrorResponse> {
        None
    }

    open spec fn is_request(&self, data: PaymentAdditionalData<'_, F>) -> bool {
        let d = data.payment_data;
        let attempt = d.payment_attempt;
        &&& self.amount == effective_amount(d)
        &&& self.mandate_id == d.mandate_id
        &&& self.connector_transaction_id == sync_transaction_id(attempt)
        &&& self.encoded_data == attempt.encoded_data
        &&& self.capture_method == attempt.capture_method
        &&& self.connector_meta == metadata_document(attempt)
        &&& is_sync_type(self.sync_type, d.multiple_capture_data)
        &&& self.payment_method_type == attempt.payment_method_type
        &&& self.currency == d.currency
        &&& self.payment_experience == attempt.payment_experience
    }

    fn try_from(additional_data: PaymentAdditionalData<'_, F>) -> (r: Result<
        Self,
        ApiErrorResponse,
    >) {
        let payment_data = additional_data.payment_data;
        let amount = resolve_amount(&payment_data.surcharge_details, payment_data.amount);
        let sync_type = match &payment_data.multiple_capture_data {
            Some(multiple_capture_data) => SyncRequestType::MultipleCaptureSync(
                multiple_capture_data.get_pending_connector_capture_ids(),
            ),
            None => SyncRequestType::SinglePaymentSync,
        };
        Ok(
            PaymentsSyncData {
                amount,
                mandate_id: payment_data.mandate_id,
                connector_transaction_id: match payment_data.payment_attempt.connector_transaction_id {
                    Some(connector_txn_id) => ResponseId::ConnectorTransactionId(connector_txn_id),
                    None => ResponseId::NoResponseId,
                },
                encoded_data: payment_data.payment_attempt.encoded_data,
                capture_method: payment_data.payment_attempt.capture_method,
                connector_meta: take_metadata_document(
                    payment_data.payment_attempt.connector_metadata,
                ),
                sync_type,
                payment_method_type: payment_data.payment_attempt.payment_method_type,
                currency: payment_data.currency,
                payment_experience: payment_data.payment_attempt.payment_experience,
            },
        )
    }
}

/// Why the connector named `name` gives no transaction id for the
/// attempt, if so: no connector is configured under that name; the
/// connector cannot resolve the id; or it resolves to none.
pub open spec fn transaction_id_failure(name: Seq<char>, attempt: PaymentAttempt) -> Option<
    ApiErrorResponse,
> {
    match Connector::named(name) {
        None => Some(ApiErrorResponse::InternalServerError),
        Some(connector) => match handle_of(connector).resolved(attempt) {
            Err(e) => Some(e),
            Ok(None) => Some(ApiErrorResponse::ResourceIdNotFound),
            Ok(Some(_)) => None,
        },
    }
}

/// Whether `id` is the transaction id under which the connector named `name` knows the attempt.
pub open spec fn is_transaction_id(id: String, name: Seq<char>, attempt: PaymentAttempt) -> bool {
    &&& Connector::named(name) is Some
    &&& handle_of(Connector::named(name)->Some_0).resolved(attempt) == Ok::<
        Option<Seq<char>>,
        ApiErrorResponse,
    >(Some(id@))
}

fn resolve_transaction_id(connector: &ConnectorData, attempt: &PaymentAttempt) -> (r: Result<
    String,
    ApiErrorResponse,
>)
    ensures
        match r {
            Ok(id) => connector.connector.resolved(*attempt) == Ok::<
                Option<Seq<char>>,
                ApiErrorResponse,
            >(Some(id@)),
            Err(e) => match connector.connector.resolved(*attempt) {
                Err(inner) => e == inner,
                Ok(None) => e == ApiErrorResponse::ResourceIdNotFound,
                Ok(Some(_)) => false,
            },
        },
{
    match connector.connector.connector_transaction_id(attempt) {
        Ok(Some(id)) => Ok(id),
        Ok(None) => Err(ApiErrorResponse::ResourceIdNotFound),
        Err(e) => Err(e),
    }
}

impl<F> FlowRequest<F> for PaymentsIncrementalAuthorizationData {
    open spec fn accepts(data: PaymentAdditionalData<'_, F>) -> bool {
        true
    }

    /// The checks run in this order: a connector is configured under the
    /// name; the payment carries the details of the increment; the
    /// connector gives a transaction id.
    open spec fn failure(data: PaymentAdditionalData<'_, F>) -> Option<ApiErrorResponse> {
        let d = data.payment_data;
        if Connector::named(data.connector_name@) is None {
            Some(ApiErrorResponse::InternalServerError)
        } else if d.incremental_authorization_details is None {
            Some(ApiErrorResponse::InternalServerError)
        } else {
            transaction_id_failure(data.connector_name@, d.payment_attempt)
        }
    }

    open spec fn is_request(&self, data: PaymentAdditionalData<'_, F>) -> bool {
        let d = data.payment_data;
        &&& d.incremental_authorization_details is Some
        &&& self.total_amount == d.incremental_authorization_details->Some_0.total_amount.0
        &&& self.additional_amount == d.incremental_authorization_details->Some_0.additional_amount.0
        &&& self.reason == d.incremental_authorization_details->Some_0.reason
        &&& self.currency == d.currency
        &&& is_transaction_id(
            self.connector_transaction_id,
            data.connector_name@,
            d.payment_attempt,
        )
    }

    fn try_from(additional_data: PaymentAdditionalData<'_, F>) -> (r: Result<
        Self,
        ApiErrorResponse,
    >) {
        let payment_data = additional_data.payment_data;
        let connector = ConnectorData::get_connector_by_name(
            additional_data.connector_name,
            GetToken::Connector,
            clone_opt_string(&payment_data.payment_attempt.merchant_connector_id),
        )?;
        let details = match payment_data.incremental_authorization_details {
            Some(details) => details,
            None => {
                return Err(ApiErrorResponse::InternalServerError);
            },
        };
        let connector_transaction_id = resolve_transaction_id(
            &connector,
            &payment_data.payment_attempt,
        )?;
        Ok(
            PaymentsIncrementalAuthorizationData {
                total_amount: details.total_amount.get_amount_as_i64(),
                additional_amount: details.additional_amount.get_amount_as_i64(),
                reason: details.reason,
                currency: payment_data.currency,
                connector_transaction_id,
            },
        )
    }
}

/// The amount to capture: the one set on the attempt, else the amount of the payment.
pub open spec fn amount_to_capture<F>(d: PaymentData<F>) -> MinorUnit {
    match d.payment_attempt.amount_to_capture {
        Some(amount) => amount,
        None => d.amount,
    }
}

/// The place of a capture among the captures of its attempt, in multiple-capture mode.
pub open spec fn capture_request_data(capture_data: Option<MultipleCaptureData>) -> Option<
    MultipleCaptureRequestData,
> {
    match capture_data {
        Some(captures) => Some(
            MultipleCaptureRequestData {
                capture_sequence: captures.all_captures@.len() as i16,
                capture_reference: captures.latest_capture.capture_id,
            },
        ),
        None => None,
    }
}

impl<F> FlowRequest<F> for PaymentsCaptureData {
    open spec fn accepts(data: PaymentAdditionalData<'_, F>) -> bool {
        true
    }

    /// The checks run in this order: a connector is configured under the
    /// name; the browser details can be read; the connector gives a
    /// transaction id; the number of captures fits a sequence number.
    open spec fn failure(data: PaymentAdditionalData<'_, F>) -> Option<ApiErrorResponse> {
        let d = data.payment_data;
        if Connector::named(data.connector_name@) is None {
            Some(ApiErrorResponse::InternalServerError)
        } else if browser_info_unreadable(d.payment_attempt) {
            Some(ApiErrorResponse::InvalidDataValue { field_name: "browser_info" })
        } else if transaction_id_failure(data.connector_name@, d.payment_attempt) is Some {
            transaction_id_failure(data.connector_name@, d.payment_attempt)
        } else if d.multiple_capture_data is Some
            && d.multiple_capture_data->Some_0.all_captures@.len() > i16::MAX {
            Some(ApiErrorResponse::InternalServerError)
        } else {
            None
        }
    }

    open spec fn is_request(&self, data: PaymentAdditionalData<'_, F>) -> bool {
        let d = data.payment_data;
        let attempt = d.payment_attempt;
        &&& self.amount_to_capture == amount_to_capture(d).0
        &&& self.minor_amount_to_capture == amount_to_capture(d)
        &&& self.currency == d.currency
        &&& is_transaction_id(self.connector_transaction_id, data.connector_name@, attempt)
        &&& self.payment_amount == d.amount.0
        &&& self.minor_payment_amount == d.amount
        &&& self.connector_meta == metadata_document(attempt)
        &&& self.multiple_capture_data == capture_request_data(d.multiple_capture_data)
        &&& self.browser_info == typed_of(attempt.browser_info)
        &&& self.metadata == d.payment_intent.metadata
    }

    fn try_from(additional_data: PaymentAdditionalData<'_, F>) -> (r: Result<
        Self,
        ApiErrorResponse,
    >) {
        let payment_data = additional_data.payment_data;
        let connector = ConnectorData::get_connector_by_name(
            additional_data.connector_name,
            GetToken::Connector,
            clone_opt_string(&payment_data.payment_attempt.merchant_connector_id),
        )?;
        let amount_to_capture = match payment_data.payment_attempt.amount_to_capture {
            Some(capture_amount) => capture_amount,
            None => payment_data.amount,
        };
        check_browser_info(&payment_data.payment_attempt.browser_info)?;
        let connector_transaction_id = resolve_transaction_id(
            &connector,
            &payment_data.payment_attempt,
        )?;
        let multiple_capture_data = match payment_data.multiple_capture_data {
            Some(multiple_capture_data) => {
                let capture_sequence = multiple_capture_data.get_captures_count()?;
                Some(
                    MultipleCaptureRequestData {
                        capture_sequence,
                        capture_reference: multiple_capture_data.latest_capture.capture_id,
                    },
                )
            },
            None => None,
        };
        let browser_info = read_browser_info(payment_data.payment_attempt.browser_info)?;
        let amount = payment_data.amount;
        Ok(
            PaymentsCaptureData {
                amount_to_capture: amount_to_capture.get_amount_as_i64(),
                minor_amount_to_capture: amount_to_capture,
                currency: payment_data.currency,
                connector_transaction_id,
                payment_amount: amount.get_amount_as_i64(),
                minor_payment_amount: amount,
                connector_meta: take_metadata_document(
                    payment_data.payment_attempt.connector_metadata,
                ),
                multiple_capture_data,
                browser_info,
                metadata: payment_data.payment_intent.metadata,
            },
        )
    }
}

impl<F> FlowRequest<F> for PaymentsCancelData {
    open spec fn accepts(data: PaymentAdditionalData<'_, F>) -> bool {
        true
    }

    /// The checks run in this order: a connector is configured under the
    /// name; the browser details can be read; the connector gives a
    /// transaction id.
    open spec fn failure(data: PaymentAdditionalData<'_, F>) -> Option<ApiErrorResponse> {
        let d = data.payment_data;
        if Connector::named(data.connector_name@) is None {
            Some(ApiErrorResponse::InternalServerError)
        } else if browser_info_unreadable(d.payment_attempt) {
            Some(ApiErrorResponse::InvalidDataValue { field_name: "browser_info" })
        } else {
            transaction_id_failure(data.connector_name@, d.payment_attempt)
        }
    }

    open spec fn is_request(&self, data: PaymentAdditionalData<'_, F>) -> bool {
        let d = data.payment_data;
        let attempt = d.payment_attempt;
        &&& self.amount == Some(d.amount.0)
        &&& self.minor_amount == Some(d.amount)
        &&& self.currency == Some(d.currency)
        &&& is_transaction_id(self.connector_transaction_id, data.connector_name@, attempt)
        &&& self.cancellation_reason == attempt.cancellation_reason
        &&& self.connector_meta == metadata_document(attempt)
        &&& self.browser_info == typed_of(attempt.browser_info)
        &&& self.metadata == d.payment_intent.metadata
    }

    fn try_from(additional_data: PaymentAdditionalData<'_, F>) -> (r: Result<
        Self,
        ApiErrorResponse,
    >) {
        let payment_data = additional_data.payment_data;
        let connector = ConnectorData::get_connector_by_name(
            additional_data.connector_name,
            GetToken::Connector,
            clone_opt_string(&payment_data.payment_attempt.merchant_connector_id),
        )?;
        check_browser_info(&payment_data.payment_attempt.browser_info)?;
        let connector_transaction_id = resolve_transaction_id(
            &connector,
            &payment_data.payment_attempt,
        )?;
        let browser_info = read_browser_info(payment_data.payment_attempt.browser_info)?;
        let amount = payment_data.amount;
        Ok(
            PaymentsCancelData {
                amount: Some(amount.get_amount_as_i64()),
                minor_amount: Some(amount),
                currency: Some(payment_data.currency),
                connector_transaction_id,
                cancellation_reason: payment_data.payment_attempt.cancellation_reason,
                connector_meta: take_metadata_document(
                    payment_data.payment_attempt.connector_metadata,
                ),
                browser_info,
                metadata: payment_data.payment_intent.metadata,
            },
        )
    }
}

impl<F> FlowRequest<F> for PaymentsApproveData {
    open spec fn accepts(data: PaymentAdditionalData<'_, F>) -> bool {
        true
    }

    /// An approve request can always be built.
    open spec fn failure(data: PaymentAdditionalData<'_, F>) -> Option<ApiErrorResponse> {
        None
    }

    open spec fn is_request(&self, data: PaymentAdditionalData<'_, F>) -> bool {
        &&& self.amount == Some(data.payment_data.amount.0)
        &&& self.currency == Some(data.payment_data.currency)
    }

    fn try_from(additional_data: PaymentAdditionalData<'_, F>) -> (r: Result<
        Self,
        ApiErrorResponse,
    >) {
        let payment_data = additional_data.payment_data;
        let amount = payment_data.amount;
        Ok(
            PaymentsApproveData {
                amount: Some(amount.get_amount_as_i64()),
                currency: Some(payment_data.currency),
            },
        )
    }
}

impl<F> FlowRequest<F> for PaymentsRejectData {
    open spec fn accepts(data: PaymentAdditionalData<'_, F>) -> bool {
        true
    }

    /// A reject request can always be built.
    open spec fn failure(data: PaymentAdditionalData<'_, F>) -> Option<ApiErrorResponse> {
        None
    }

    open spec fn is_request(&self, data: PaymentAdditionalData<'_, F>) -> bool {
        &&& self.amount == Some(data.payment_data.amount.0)
        &&& self.currency == Some(data.payment_data.currency)
    }

    fn try_from(additional_data: PaymentAdditionalData<'_, F>) -> (r: Result<
        Self,
        ApiErrorResponse,
    >) {
        let payment_data = additional_data.payment_data;
        let amount = payment_data.amount;
        Ok(
            PaymentsRejectData {
                amount: Some(amount.get_amount_as_i64()),
                currency: Some(payment_data.currency),
            },
        )
    }
}

/// The tax on the order computed for the payment method type of the payment, if any.
pub open spec fn payment_method_type_tax(intent: PaymentIntent) -> Option<MinorUnit> {
    match intent.tax_details {
        Some(tax) => match tax.payment_method_type {
            Some(t) => Some(t.order_tax_amount),
            None => None,
        },
        None => None,
    }
}

impl<F> FlowRequest<F> for SdkPaymentsSessionUpdateData {
    /// The amount of the intent and the tax on the order together stay in the 64-bit range.
    open spec fn accepts(data: PaymentAdditionalData<'_, F>) -> bool {
        let intent = data.payment_data.payment_intent;
        payment_method_type_tax(intent) is Some ==> i64::MIN <= intent.amount.0
            + payment_method_type_tax(intent)->Some_0.0 <= i64::MAX
    }

    /// Without a tax computed for the payment method type there is no request.
    open spec fn failure(data: PaymentAdditionalData<'_, F>) -> Option<ApiErrorResponse> {
        if payment_method_type_tax(data.payment_data.payment_intent) is None {
            Some(ApiErrorResponse::MissingRequiredField { field_name: "order_tax_amount" })
        } else {
            None
        }
    }

    open spec fn is_request(&self, data: PaymentAdditionalData<'_, F>) -> bool {
        let d = data.payment_data;
        let intent = d.payment_intent;
        &&& payment_method_type_tax(intent) is Some
        &&& self.order_tax_amount == payment_method_type_tax(intent)->Some_0
        &&& self.net_amount.0 == intent.amount.0 + payment_method_type_tax(intent)->Some_0.0
        &&& self.currency == d.currency
        &&& self.session_id == d.session_id
    }

    fn try_from(additional_data: PaymentAdditionalData<'_, F>) -> (r: Result<
        Self,
        ApiErrorResponse,
    >) {
        let payment_data = additional_data.payment_data;
        let order_tax_amount = match payment_data.payment_intent.tax_details {
            Some(tax) => match tax.payment_method_type {
                Some(t) => t.order_tax_amount,
                None => {
                    return Err(
                        ApiErrorResponse::MissingRequiredField { field_name: "order_tax_amount" },
                    );
                },
            },
            None => {
                return Err(
                    ApiErrorResponse::MissingRequiredField { field_name: "order_tax_amount" },
                );
            },
        };
        let amount = payment_data.payment_intent.amount;
        Ok(
            SdkPaymentsSessionUpdateData {
                net_amount: MinorUnit::new(
                    amount.get_amount_as_i64() + order_tax_amount.get_amount_as_i64(),
                ),
                order_tax_amount,
                currency: payment_data.currency,
                session_id: payment_data.session_id,
            },
        )
    }
}

/// The country of the unified billing address of the payment method, if known.
pub open spec fn method_billing_country<F>(d: PaymentData<F>) -> Option<String> {
    match d.address.unified_payment_method_billing {
        Some(billing) => match billing.address {
            Some(address) => address.country,
            None => None,
        },
        None => None,
    }
}

impl<F> FlowRequest<F> for PaymentsSessionData {
    open spec fn accepts(data: PaymentAdditionalData<'_, F>) -> bool {
        true
    }

    /// An entry of the order details that cannot be read is the one failure.
    open spec fn failure(data: PaymentAdditionalData<'_, F>) -> Option<ApiErrorResponse> {
        if order_details_unreadable(data.payment_data.payment_intent) {
            Some(ApiErrorResponse::InvalidDataValue { field_name: "OrderDetailsWithAmount" })
        } else {
            None
        }
    }

    open spec fn is_request(&self, data: PaymentAdditionalData<'_, F>) -> bool {
        let d = data.payment_data;
        &&& self.amount == effective_amount(d).0
        &&& self.minor_amount == effective_amount(d)
        &&& self.currency == d.currency
        &&& self.country == method_billing_country(d)
        &&& is_order_details(self.order_details, d.payment_intent)
        &&& self.surcharge_details == d.surcharge_details
    }

    fn try_from(additional_data: PaymentAdditionalData<'_, F>) -> (r: Result<
        Self,
        ApiErrorResponse,
    >) {
        let payment_data = additional_data.payment_data;
        let order_details = read_order_details(&payment_data.payment_intent.order_details)?;
        let amount = resolve_amount(&payment_data.surcharge_details, payment_data.amount);
        let country = match payment_data.address.unified_payment_method_billing {
            Some(billing) => match billing.address {
                Some(address) => address.country,
                None => None,
            },
            None => None,
        };
        Ok(
            PaymentsSessionData {
                amount: amount.get_amount_as_i64(),
                minor_amount: amount,
                currency: payment_data.currency,
                country,
                order_details,
                surcharge_details: payment_data.surcharge_details,
            },
        )
    }
}

impl<F> FlowRequest<F> for SetupMandateRequestData {
    open spec fn accepts(data: PaymentAdditionalData<'_, F>) -> bool {
        true
    }

    /// The checks run in this order: the browser details can be read;
    /// there is payment method data.
    open spec fn failure(data: PaymentAdditionalData<'_, F>) -> Option<ApiErrorResponse> {
        let d = data.payment_data;
        if browser_info_unreadable(d.payment_attempt) {
            Some(ApiErrorResponse::InvalidDataValue { field_name: "browser_info" })
        } else if d.payment_method_data is None {
            Some(ApiErrorResponse::MissingRequiredField { field_name: "payment_method_data" })
        } else {
            None
        }
    }

    open spec fn is_request(&self, data: PaymentAdditionalData<'_, F>) -> bool {
        let d = data.payment_data;
        let intent = d.payment_intent;
        let attempt = d.payment_attempt;
        &&& self.currency == d.currency
        &&& self.confirm
        &&& self.amount == Some(d.amount.0)
        &&& self.minor_amount == Some(d.amount)
        &&& Some(self.payment_method_data) == d.payment_method_data
        &&& self.statement_descriptor_suffix == intent.statement_descriptor_suffix
        &&& self.setup_future_usage == intent.setup_future_usage
        &&& self.off_session == off_session(d.mandate_id)
        &&& self.mandate_id == d.mandate_id
        &&& self.setup_mandate_details == d.setup_mandate
        &&& self.customer_acceptance == d.customer_acceptance
        &&& is_url(
            self.router_return_url,
            redirect_url(
                data.router_base_url@,
                attempt.payment_id@,
                attempt.merchant_id@,
                data.connector_name@,
                creds_text(d.creds_identifier),
            ),
        )
        &&& self.email == d.email
        &&& self.customer_name == customer_name(*data.customer_data)
        &&& self.return_url == intent.return_url
        &&& self.browser_info == typed_of(attempt.browser_info)
        &&& self.payment_method_type == attempt.payment_method_type
        &&& self.request_incremental_authorization == incremental_authorization_requested(intent)
        &&& self.metadata == intent.metadata
    }

    fn try_from(additional_data: PaymentAdditionalData<'_, F>) -> (r: Result<
        Self,
        ApiErrorResponse,
    >) {
        let PaymentAdditionalData { router_base_url, connector_name, payment_data, customer_data } =
            additional_data;
        let router_return_url = Some(
            return_url_of(
                router_base_url.as_str(),
                &payment_data.payment_attempt,
                connector_name,
                &payment_data.creds_identifier,
            ),
        );
        let request_incremental_authorization = is_incremental_authorization_requested(
            &payment_data.payment_intent,
        );
        let customer_name = copy_customer_name(customer_data);
        let browser_info = read_browser_info(payment_data.payment_attempt.browser_info)?;
        let payment_method_data = match payment_data.payment_method_data {
            Some(method) => method,
            None => {
                return Err(
                    ApiErrorResponse::MissingRequiredField { field_name: "payment_method_data" },
                );
            },
        };
        let off_session = match &payment_data.mandate_id {
            Some(_) => Some(true),
            None => None,
        };
        let amount = payment_data.amount;
        Ok(
            SetupMandateRequestData {
                currency: payment_data.currency,
                confirm: true,
                amount: Some(amount.get_amount_as_i64()),
                minor_amount: Some(amount),
                payment_method_data,
                statement_descriptor_suffix: payment_data.payment_intent.statement_descriptor_suffix,
                setup_future_usage: payment_data.payment_intent.setup_future_usage,
                off_session,
                mandate_id: payment_data.mandate_id,
                setup_mandate_details: payment_data.setup_mandate,
                customer_acceptance: payment_data.customer_acceptance,
                router_return_url,
                email: payment_data.email,
                customer_name,
                return_url: payment_data.payment_intent.return_url,
                browser_info,
                payment_method_type: payment_data.payment_attempt.payment_method_type,
                request_incremental_authorization,
                metadata: payment_data.payment_intent.metadata,
            },
        )
    }
}

/// What the customer brought back from a redirect, as a connector is told.
pub open spec fn redirect_response_data<F>(d: PaymentData<F>) -> Option<
    CompleteAuthorizeRedirectResponse,
> {
    match d.redirect_response {
        Some(redirect) => Some(
            CompleteAuthorizeRedirectResponse {
                params: redirect.param,
                payload: redirect.json_payload,
            },
        ),
        None => None,
    }
}

impl<F> FlowRequest<F> for CompleteAuthorizeData {
    open spec fn accepts(data: PaymentAdditionalData<'_, F>) -> bool {
        true
    }

    /// Browser details that cannot be read are the one failure.
    open spec fn failure(data: PaymentAdditionalData<'_, F>) -> Option<ApiErrorResponse> {
        if browser_info_unreadable(data.payment_data.payment_attempt) {
            Some(ApiErrorResponse::InvalidDataValue { field_name: "browser_info" })
        } else {
            None
        }
    }

    open spec fn is_request(&self, data: PaymentAdditionalData<'_, F>) -> bool {
        let d = data.payment_data;
        let intent = d.payment_intent;
        let attempt = d.payment_attempt;
        &&& self.setup_future_usage == intent.setup_future_usage
        &&& self.mandate_id == d.mandate_id
        &&& self.off_session == off_session(d.mandate_id)
        &&& self.setup_mandate_details == d.setup_mandate
        &&& self.confirm == attempt.confirm
        &&& self.statement_descriptor_suffix == intent.statement_descriptor_suffix
        &&& self.capture_method == attempt.capture_method
        &&& self.amount == effective_amount(d).0
        &&& self.minor_amount == effective_amount(d)
        &&& self.currency == d.currency
        &&& self.browser_info == typed_of(attempt.browser_info)
        &&& self.email == d.email
        &&& self.payment_method_data == d.payment_method_data
        &&& self.connector_transaction_id == attempt.connector_transaction_id
        &&& self.redirect_response == redirect_response_data(d)
        &&& self.connector_meta == metadata_document(attempt)
        &&& is_url(
            self.complete_authorize_url,
            complete_authorize_url(
                data.router_base_url@,
                attempt.payment_id@,
                attempt.merchant_id@,
                data.connector_name@,
            ),
        )
        &&& self.metadata == intent.metadata
        &&& self.customer_acceptance == d.customer_acceptance
    }

    fn try_from(additional_data: PaymentAdditionalData<'_, F>) -> (r: Result<
        Self,
        ApiErrorResponse,
    >) {
        let PaymentAdditionalData { router_base_url, connector_name, payment_data, customer_data: _ } =
            additional_data;
        let complete_authorize_url = Some(
            create_complete_authorize_url(
                router_base_url.as_str(),
                &payment_data.payment_attempt,
                connector_name,
            ),
        );
        let browser_info = read_browser_info(payment_data.payment_attempt.browser_info)?;
        let redirect_response = match payment_data.redirect_response {
            Some(redirect) => Some(
                CompleteAuthorizeRedirectResponse {
                    params: redirect.param,
                    payload: redirect.json_payload,
                },
            ),
            None => None,
        };
        let amount = resolve_amount(&payment_data.surcharge_details, payment_data.amount);
        let off_session = match &payment_data.mandate_id {
            Some(_) => Some(true),
            None => None,
        };
        Ok(
            CompleteAuthorizeData {
                setup_future_usage: payment_data.payment_intent.setup_future_usage,
                mandate_id: payment_data.mandate_id,
                off_session,
                setup_mandate_details: payment_data.setup_mandate,
                confirm: payment_data.payment_attempt.confirm,
                statement_descriptor_suffix: payment_data.payment_intent.statement_descriptor_suffix,
                capture_method: payment_data.payment_attempt.capture_method,
                amount: amount.get_amount_as_i64(),
                minor_amount: amount,
                currency: payment_data.currency,
                browser_info,
                email: payment_data.email,
                payment_method_data: payment_data.payment_method_data,
                connector_transaction_id: payment_data.payment_attempt.connector_transaction_id,
                redirect_response,
                connector_meta: take_metadata_document(
                    payment_data.payment_attempt.connector_metadata,
                ),
                complete_authorize_url,
                metadata: payment_data.payment_intent.metadata,
                customer_acceptance: payment_data.customer_acceptance,
            },
        )
    }
}

impl<F> FlowRequest<F> for PaymentsPreProcessingData {
    open spec fn accepts(data: PaymentAdditionalData<'_, F>) -> bool {
        true
    }

    /// The checks run in this order: each entry of the order details can
    /// be read; so can the browser details.
    open spec fn failure(data: PaymentAdditionalData<'_, F>) -> Option<ApiErrorResponse> {
        let d = data.payment_data;
        if order_details_unreadable(d.payment_intent) {
            Some(ApiErrorResponse::InvalidDataValue { field_name: "OrderDetailsWithAmount" })
        } else if browser_info_unreadable(d.payment_attempt) {
            Some(ApiErrorResponse::InvalidDataValue { field_name: "browser_info" })
        } else {
            None
        }
    }

    open spec fn is_request(&self, data: PaymentAdditionalData<'_, F>) -> bool {
        let d = data.payment_data;
        let intent = d.payment_intent;
        let attempt = d.payment_attempt;
        let base = data.router_base_url@;
        let connector = data.connector_name@;
        &&& self.payment_method_data == d.payment_method_data
        &&& self.email == d.email
        &&& self.currency == Some(d.currency)
        &&& self.amount == Some(effective_amount(d).0)
        &&& self.minor_amount == Some(effective_amount(d))
        &&& self.payment_method_type == attempt.payment_method_type
        &&& self.setup_mandate_details == d.setup_mandate
        &&& self.capture_method == attempt.capture_method
        &&& is_order_details(self.order_details, intent)
        &&& is_url(
            self.router_return_url,
            redirect_url(
                base,
                attempt.payment_id@,
                attempt.merchant_id@,
                connector,
                creds_text(d.creds_identifier),
            ),
        )
        &&& is_url(self.webhook_url, webhook_url(base, attempt.merchant_id@, connector))
        &&& is_url(
            self.complete_authorize_url,
            complete_authorize_url(base, attempt.payment_id@, attempt.merchant_id@, connector),
        )
        &&& self.browser_info == typed_of(attempt.browser_info)
        &&& self.surcharge_details == d.surcharge_details
        &&& self.connector_transaction_id == attempt.connector_transaction_id
        &&& self.redirect_response is None
        &&& self.mandate_id == d.mandate_id
        &&& self.related_transaction_id is None
        &&& self.enrolled_for_3ds
    }

    fn try_from(additional_data: PaymentAdditionalData<'_, F>) -> (r: Result<
        Self,
        ApiErrorResponse,
    >) {
        let PaymentAdditionalData { router_base_url, connector_name, payment_data, customer_data: _ } =
            additional_data;
        let order_details = read_order_details(&payment_data.payment_intent.order_details)?;
        let webhook_url = Some(
            create_webhook_url(
                router_base_url.as_str(),
                payment_data.payment_attempt.merchant_id.as_str(),
                connector_name,
            ),
        );
        let router_return_url = Some(
            return_url_of(
                router_base_url.as_str(),
                &payment_data.payment_attempt,
                connector_name,
                &payment_data.creds_identifier,
            ),
        );
        let complete_authorize_url = Some(
            create_complete_authorize_url(
                router_base_url.as_str(),
                &payment_data.payment_attempt,
                connector_name,
            ),
        );
        let browser_info = read_browser_info(payment_data.payment_attempt.browser_info)?;
        let amount = resolve_amount(&payment_data.surcharge_details, payment_data.amount);
        Ok(
            PaymentsPreProcessingData {
                payment_method_data: payment_data.payment_method_data,
                email: payment_data.email,
                currency: Some(payment_data.currency),
                amount: Some(amount.get_amount_as_i64()),
                minor_amount: Some(amount),
                payment_method_type: payment_data.payment_attempt.payment_method_type,
                setup_mandate_details: payment_data.setup_mandate,
                capture_method: payment_data.payment_attempt.capture_method,
                order_details,
                router_return_url,
                webhook_url,
                complete_authorize_url,
                browser_info,
                surcharge_details: payment_data.surcharge_details,
                connector_transaction_id: payment_data.payment_attempt.connector_transaction_id,
                redirect_response: None,
                mandate_id: payment_data.mandate_id,
                related_transaction_id: None,
                enrolled_for_3ds: true,
            },
        )
    }
}

} // verus!
