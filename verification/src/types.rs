//! The canonical transformation unit and the per-operation request payloads.

use std::marker::PhantomData;
use vstd::prelude::*;

use crate::api::{
    MinorUnit, OrderDetailsWithAmount, PaymentAttemptResponse, PaymentCharges, PaymentLinkResponse,
    PaymentMethodData, RefundResponse, SessionToken, DisputeResponsePaymentsRetrieve,
    IncrementalAuthorizationResponse,
};
use crate::domain::{CustomerAcceptance, MandateData, PaymentAddress};
use crate::enums::{
    ApplePayFlow, AttemptStatus, AuthenticationType, CaptureMethod, Currency, FutureUsage,
    PaymentExperience, PaymentMethod, PaymentMethodStatus, PaymentMethodType, RedirectMethod,
};
use crate::storage::{
    Authentication, Capture, EphemeralKey, FraudCheck, PaymentAttempt, PaymentIntent,
    PaymentMethodInfo,
};

verus! {

/// Credentials of a merchant with a connector.
#[derive(Debug, PartialEq)]
pub enum ConnectorAuthType {
    TemporaryAuth,
    HeaderKey { api_key: String },
    BodyKey { api_key: String, key1: String },
    SignatureKey { api_key: String, key1: String, api_secret: String },
    MultiAuthKey { api_key: String, key1: String, api_secret: String, key2: String },
    NoKey,
}

/// Device details of the customer's browser.
#[derive(Clone, Debug, PartialEq)]
pub struct BrowserInformation {
    pub color_depth: Option<u8>,
    pub java_enabled: Option<bool>,
    pub java_script_enabled: Option<bool>,
    pub language: Option<String>,
    pub screen_height: Option<u32>,
    pub screen_width: Option<u32>,
    pub time_zone: Option<i32>,
    pub ip_address: Option<String>,
    pub accept_header: Option<String>,
    pub user_agent: Option<String>,
}

/// A form that sends the customer's browser to another site.
#[derive(Clone, Debug, PartialEq)]
pub enum RedirectForm {
    Form { endpoint: String, method: RedirectMethod, form_fields: Vec<(String, String)> },
    Html { html_data: String },
}

/// How a connector names a transaction in its answer.
#[derive(Clone, Debug, PartialEq)]
pub enum ResponseId {
    ConnectorTransactionId(String),
    EncodedData(String),
    NoResponseId,
}

#[derive(Clone, Debug, PartialEq)]
pub struct MandateReference {
    pub connector_mandate_id: Option<String>,
    pub payment_method_id: Option<String>,
}

/// What a connector answered to a payment operation.
#[derive(Clone, Debug, PartialEq)]
pub enum PaymentsResponseData {
    TransactionResponse {
        resource_id: ResponseId,
        redirection_data: Option<RedirectForm>,
        mandate_reference: Option<MandateReference>,
        connector_metadata: Option<serde_json::Value>,
        network_txn_id: Option<String>,
        connector_response_reference_id: Option<String>,
        incremental_authorization_allowed: Option<bool>,
        charge_id: Option<String>,
    },
    SessionResponse { session_token: SessionToken },
    SessionTokenResponse { session_token: String },
    PreProcessingResponse {
        pre_processing_id: String,
        connector_metadata: Option<serde_json::Value>,
        session_token: Option<SessionToken>,
        connector_response_reference_id: Option<String>,
    },
}

/// A failure reported by a connector.
#[derive(Clone, Debug, PartialEq)]
pub struct ErrorResponse {
    pub code: String,
    pub message: String,
    pub reason: Option<String>,
    pub status_code: u16,
    pub attempt_status: Option<AttemptStatus>,
    pub connector_transaction_id: Option<String>,
}

/// What a connector answered about one capture.
#[derive(Clone, Debug, PartialEq)]
pub enum CaptureSyncResponse {
    Success {
        resource_id: ResponseId,
        status: AttemptStatus,
        connector_response_reference_id: Option<String>,
        amount: Option<MinorUnit>,
    },
    Error {
        code: String,
        message: String,
        reason: Option<String>,
        status_code: u16,
        amount: Option<MinorUnit>,
    },
}

#[derive(Clone, Debug, PartialEq)]
pub struct AccessToken {
    pub token: String,
    pub expires: i64,
}

#[derive(Clone, Debug, PartialEq)]
pub enum PaymentMethodToken {
    Token(String),
    ApplePayDecrypt(serde_json::Value),
}

#[derive(Clone, Copy, Debug, PartialEq, Eq, Structural)]
pub struct PaymentMethodBalance {
    pub amount: MinorUnit,
    pub currency: Currency,
}

#[derive(Clone, Copy, Debug, PartialEq, Eq, Structural)]
pub struct RecurringMandatePaymentData {
    pub payment_method_type: Option<PaymentMethodType>,
    pub original_payment_authorized_amount: Option<i64>,
    pub original_payment_authorized_currency: Option<Currency>,
}

#[derive(Clone, Debug, PartialEq)]
pub struct IntegrityCheckError {
    pub field_names: String,
    pub connector_transaction_id: Option<String>,
}

/// The canonical transformation unit of one operation: identifiers,
/// merchant and connector context, addresses, the operation's request
/// payload and a slot for the connector's answer.
#[derive(Debug, PartialEq)]
pub struct RouterData<Flow, Request, Response> {
    pub flow: PhantomData<Flow>,
    pub merchant_id: String,
    pub customer_id: Option<String>,
    pub connector: String,
    pub payment_id: String,
    pub attempt_id: String,
    pub status: AttemptStatus,
    pub payment_method: PaymentMethod,
    pub connector_auth_type: ConnectorAuthType,
    pub description: Option<String>,
    pub return_url: Option<String>,
    pub address: PaymentAddress,
    pub auth_type: AuthenticationType,
    pub connector_meta_data: Option<serde_json::Value>,
    pub connector_wallets_details: Option<serde_json::Value>,
    pub request: Request,
    pub response: Result<Response, ErrorResponse>,
    pub amount_captured: Option<i64>,
    pub minor_amount_captured: Option<MinorUnit>,
    pub access_token: Option<AccessToken>,
    pub session_token: Option<String>,
    pub reference_id: Option<String>,
    pub payment_method_status: Option<PaymentMethodStatus>,
    pub payment_method_token: Option<PaymentMethodToken>,
    pub connector_customer: Option<String>,
    pub recurring_mandate_payment_data: Option<RecurringMandatePaymentData>,
    pub connector_request_reference_id: String,
    pub preprocessing_id: Option<String>,
    pub test_mode: Option<bool>,
    pub payment_method_balance: Option<PaymentMethodBalance>,
    pub connector_api_version: Option<String>,
    pub connector_http_status_code: Option<u16>,
    pub external_latency: Option<u128>,
    pub apple_pay_flow: Option<ApplePayFlow>,
    pub frm_metadata: Option<serde_json::Value>,
    pub refund_id: Option<String>,
    pub dispute_id: Option<String>,
    pub integrity_check: Result<(), IntegrityCheckError>,
}

#[derive(Clone, Copy, Debug, PartialEq, Eq, Structural)]
pub struct SurchargeDetails {
    pub original_amount: MinorUnit,
    pub surcharge_amount: MinorUnit,
    pub tax_on_surcharge_amount: MinorUnit,
    pub final_amount: MinorUnit,
}

#[derive(Clone, Debug, PartialEq)]
pub struct MandateIds {
    pub mandate_id: Option<String>,
    pub connector_mandate_id: Option<String>,
}

/// Proof of a completed external authentication, as sent to a connector.
#[derive(Clone, Debug, PartialEq)]
pub struct AuthenticationData {
    pub eci: Option<String>,
    pub cavv: String,
    pub threeds_server_transaction_id: Option<String>,
    pub message_version: Option<String>,
}

#[derive(Clone, Debug, PartialEq)]
pub struct RedirectResponse {
    pub param: Option<String>,
    pub json_payload: Option<serde_json::Value>,
}

#[derive(Clone, Debug, PartialEq)]
pub struct CompleteAuthorizeRedirectResponse {
    pub params: Option<String>,
    pub payload: Option<serde_json::Value>,
}

#[derive(Clone, Debug, PartialEq)]
pub struct IncrementalAuthorizationDetails {
    pub additional_amount: MinorUnit,
    pub total_amount: MinorUnit,
    pub reason: Option<String>,
    pub authorization_id: Option<String>,
}

/// How often and how long a client polls for an authentication result.
#[derive(Clone, Copy, Debug, PartialEq, Eq, Structural)]
pub struct PollConfig {
    pub delay_in_secs: i8,
    pub frequency: i8,
}

impl PollConfig {
    /// The polling used when none is configured.
    pub fn default_config() -> (r: Self)
        ensures
            r == (PollConfig { delay_in_secs: 2, frequency: 5 }),
    {
        PollConfig { delay_in_secs: 2, frequency: 5 }
    }
}

#[derive(Clone, Debug, PartialEq)]
pub struct PaymentsAuthorizeData {
    pub payment_method_data: PaymentMethodData,
    pub setup_future_usage: Option<FutureUsage>,
    pub mandate_id: Option<MandateIds>,
    pub off_session: Option<bool>,
    pub setup_mandate_details: Option<MandateData>,
    pub confirm: bool,
    pub statement_descriptor_suffix: Option<String>,
    pub statement_descriptor: Option<String>,
    pub capture_method: Option<CaptureMethod>,
    pub amount: i64,
    pub minor_amount: MinorUnit,
    pub currency: Currency,
    pub browser_info: Option<BrowserInformation>,
    pub email: Option<String>,
    pub customer_name: Option<String>,
    pub payment_experience: Option<PaymentExperience>,
    pub order_details: Option<Vec<OrderDetailsWithAmount>>,
    pub order_category: Option<String>,
    pub session_token: Option<String>,
    pub enrolled_for_3ds: bool,
    pub related_transaction_id: Option<String>,
    pub payment_method_type: Option<PaymentMethodType>,
    pub router_return_url: Option<String>,
    pub webhook_url: Option<String>,
    pub complete_authorize_url: Option<String>,
    pub customer_id: Option<String>,
    pub surcharge_details: Option<SurchargeDetails>,
    pub request_incremental_authorization: bool,
    pub metadata: Option<serde_json::Value>,
    pub authentication_data: Option<AuthenticationData>,
    pub customer_acceptance: Option<CustomerAcceptance>,
    pub charges: Option<PaymentCharges>,
    pub merchant_order_reference_id: Option<String>,
}

/// Which captures a sync asks about.
#[derive(Clone, Debug, PartialEq)]
pub enum SyncRequestType {
    MultipleCaptureSync(Vec<String>),
    SinglePaymentSync,
}

#[derive(Clone, Debug, PartialEq)]
pub struct PaymentsSyncData {
    pub connector_transaction_id: ResponseId,
    pub encoded_data: Option<String>,
    pub capture_method: Option<CaptureMethod>,
    pub connector_meta: Option<serde_json::Value>,
    pub sync_type: SyncRequestType,
    pub mandate_id: Option<MandateIds>,
    pub payment_method_type: Option<PaymentMethodType>,
    pub currency: Currency,
    pub payment_experience: Option<PaymentExperience>,
    pub amount: MinorUnit,
}

#[derive(Clone, Debug, PartialEq)]
pub struct MultipleCaptureRequestData {
    pub capture_sequence: i16,
    pub capture_reference: String,
}

#[derive(Clone, Debug, PartialEq)]
pub struct PaymentsCaptureData {
    pub amount_to_capture: i64,
    pub minor_amount_to_capture: MinorUnit,
    pub currency: Currency,
    pub connector_transaction_id: String,
    pub payment_amount: i64,
    pub minor_payment_amount: MinorUnit,
    pub multiple_capture_data: Option<MultipleCaptureRequestData>,
    pub connector_meta: Option<serde_json::Value>,
    pub browser_info: Option<BrowserInformation>,
    pub metadata: Option<serde_json::Value>,
}

#[derive(Clone, Debug, PartialEq)]
pub struct PaymentsCancelData {
    pub amount: Option<i64>,
    pub minor_amount: Option<MinorUnit>,
    pub currency: Option<Currency>,
    pub connector_transaction_id: String,
    pub cancellation_reason: Option<String>,
    pub connector_meta: Option<serde_json::Value>,
    pub browser_info: Option<BrowserInformation>,
    pub metadata: Option<serde_json::Value>,
}

#[derive(Clone, Copy, Debug, PartialEq, Eq, Structural)]
pub struct PaymentsApproveData {
    pub amount: Option<i64>,
    pub currency: Option<Currency>,
}

#[derive(Clone, Copy, Debug, PartialEq, Eq, Structural)]
pub struct PaymentsRejectData {
    pub amount: Option<i64>,
    pub currency: Option<Currency>,
}

#[derive(Clone, Debug, PartialEq)]
pub struct PaymentsIncrementalAuthorizationData {
    pub total_amount: i64,
    pub additional_amount: i64,
    pub currency: Currency,
    pub reason: Option<String>,
    pub connector_transaction_id: String,
}

#[derive(Clone, Debug, PartialEq)]
pub struct SdkPaymentsSessionUpdateData {
    pub order_tax_amount: MinorUnit,
    pub net_amount: MinorUnit,
    pub currency: Currency,
    pub session_id: Option<String>,
}

#[derive(Clone, Debug, PartialEq)]
pub struct PaymentsSessionData {
    pub amount: i64,
    pub minor_amount: MinorUnit,
    pub currency: Currency,
    pub country: Option<String>,
    pub surcharge_details: Option<SurchargeDetails>,
    pub order_details: Option<Vec<OrderDetailsWithAmount>>,
}

#[derive(Clone, Debug, PartialEq)]
pub struct SetupMandateRequestData {
    pub currency: Currency,
    pub payment_method_data: PaymentMethodData,
    pub amount: Option<i64>,
    pub minor_amount: Option<MinorUnit>,
    pub confirm: bool,
    pub statement_descriptor_suffix: Option<String>,
    pub customer_acceptance: Option<CustomerAcceptance>,
    pub mandate_id: Option<MandateIds>,
    pub setup_future_usage: Option<FutureUsage>,
    pub off_session: Option<bool>,
    pub setup_mandate_details: Option<MandateData>,
    pub router_return_url: Option<String>,
    pub browser_info: Option<BrowserInformation>,
    pub email: Option<String>,
    pub customer_name: Option<String>,
    pub return_url: Option<String>,
    pub payment_method_type: Option<PaymentMethodType>,
    pub request_incremental_authorization: bool,
    pub metadata: Option<serde_json::Value>,
}

#[derive(Clone, Debug, PartialEq)]
pub struct CompleteAuthorizeData {
    pub payment_method_data: Option<PaymentMethodData>,
    pub amount: i64,
    pub minor_amount: MinorUnit,
    pub email: Option<String>,
    pub currency: Currency,
    pub confirm: bool,
    pub statement_descriptor_suffix: Option<String>,
    pub capture_method: Option<CaptureMethod>,
    pub setup_future_usage: Option<FutureUsage>,
    pub mandate_id: Option<MandateIds>,
    pub off_session: Option<bool>,
    pub setup_mandate_details: Option<MandateData>,
    pub redirect_response: Option<CompleteAuthorizeRedirectResponse>,
    pub browser_info: Option<BrowserInformation>,
    pub connector_transaction_id: Option<String>,
    pub connector_meta: Option<serde_json::Value>,
    pub complete_authorize_url: Option<String>,
    pub metadata: Option<serde_json::Value>,
    pub customer_acceptance: Option<CustomerAcceptance>,
}

#[derive(Clone, Debug, PartialEq)]
pub struct PaymentsPreProcessingData {
    pub payment_method_data: Option<PaymentMethodData>,
    pub amount: Option<i64>,
    pub minor_amount: Option<MinorUnit>,
    pub email: Option<String>,
    pub currency: Option<Currency>,
    pub payment_method_type: Option<PaymentMethodType>,
    pub setup_mandate_details: Option<MandateData>,
    pub capture_method: Option<CaptureMethod>,
    pub order_details: Option<Vec<OrderDetailsWithAmount>>,
    pub router_return_url: Option<String>,
    pub webhook_url: Option<String>,
    pub complete_authorize_url: Option<String>,
    pub surcharge_details: Option<SurchargeDetails>,
    pub browser_info: Option<BrowserInformation>,
    pub connector_transaction_id: Option<String>,
    pub enrolled_for_3ds: bool,
    pub mandate_id: Option<MandateIds>,
    pub related_transaction_id: Option<String>,
    pub redirect_response: Option<CompleteAuthorizeRedirectResponse>,
}

#[derive(Clone, Debug, PartialEq)]
pub struct RefundsData {
    pub refund_id: String,
    pub connector_transaction_id: String,
    pub connector_refund_id: Option<String>,
    pub currency: Currency,
    pub payment_amount: i64,
    pub refund_amount: i64,
    pub reason: Option<String>,
}

#[derive(Clone, Debug, PartialEq)]
pub struct AccessTokenRequestData {
    pub app_id: String,
    pub id: Option<String>,
}

/// Marker of the authorize operation.
#[derive(Clone, Copy, Debug, PartialEq, Eq, Structural)]
pub struct Authorize;

/// Marker of the access-token operation.
#[derive(Clone, Copy, Debug, PartialEq, Eq, Structural)]
pub struct AccessTokenAuth;

pub type PaymentsAuthorizeRouterData = RouterData<
    Authorize,
    PaymentsAuthorizeData,
    PaymentsResponseData,
>;

pub type RefreshTokenRouterData = RouterData<AccessTokenAuth, AccessTokenRequestData, AccessToken>;

/// The captures of an attempt that runs in multiple-capture mode, in the
/// order in which they were made. There is at least one, and the latest
/// is kept apart as well: see [`MultipleCaptureData::wf`].
#[derive(Clone, Debug, PartialEq)]
pub struct MultipleCaptureData {
    pub all_captures: Vec<Capture>,
    pub latest_capture: Capture,
    pub expand_captures: Option<bool>,
}

/// Everything known of a payment while one operation on it runs.
#[derive(Debug, PartialEq)]
pub struct PaymentData<F> {
    pub flow: PhantomData<F>,
    pub payment_intent: PaymentIntent,
    pub payment_attempt: PaymentAttempt,
    pub multiple_capture_data: Option<MultipleCaptureData>,
    pub amount: MinorUnit,
    pub mandate_id: Option<MandateIds>,
    pub setup_mandate: Option<MandateData>,
    pub customer_acceptance: Option<CustomerAcceptance>,
    pub currency: Currency,
    pub address: PaymentAddress,
    pub token: Option<String>,
    pub payment_method_data: Option<PaymentMethodData>,
    pub payment_method_info: Option<PaymentMethodInfo>,
    pub refunds: Vec<RefundResponse>,
    pub disputes: Vec<DisputeResponsePaymentsRetrieve>,
    pub attempts: Option<Vec<PaymentAttemptResponse>>,
    pub sessions_token: Vec<SessionToken>,
    pub email: Option<String>,
    pub creds_identifier: Option<String>,
    pub pm_token: Option<String>,
    pub connector_customer_id: Option<String>,
    pub recurring_mandate_payment_data: Option<RecurringMandatePaymentData>,
    pub ephemeral_key: Option<EphemeralKey>,
    pub redirect_response: Option<RedirectResponse>,
    pub surcharge_details: Option<SurchargeDetails>,
    pub frm_message: Option<FraudCheck>,
    pub payment_link_data: Option<PaymentLinkResponse>,
    pub incremental_authorization_details: Option<IncrementalAuthorizationDetails>,
    pub authorizations: Vec<IncrementalAuthorizationResponse>,
    pub authentication: Option<Authentication>,
    pub poll_config: Option<PollConfig>,
    pub session_id: Option<String>,
}

/// The client-facing outcome of an operation.
#[derive(Debug, PartialEq)]
pub enum ApplicationResponse<T> {
    /// A body with response headers beside it.
    JsonWithHeaders((T, Vec<(String, String)>)),
    /// A full-page redirect form.
    Form(Box<RedirectionFormData>),
}

#[derive(Clone, Debug, PartialEq)]
pub struct RedirectionFormData {
    pub redirect_form: RedirectForm,
    pub payment_method_data: Option<PaymentMethodData>,
    pub amount: String,
    pub currency: String,
}

pub type RouterResponse<T> = Result<ApplicationResponse<T>, crate::errors::ApiErrorResponse>;

/// Merchants for whom the payment id, not the attempt id, is the reference
/// sent to connectors.
#[derive(Clone, Debug, PartialEq)]
pub struct ConnectorRequestReferenceIdConfig {
    pub merchant_ids_send_payment_id_as_connector_request_id: Vec<String>,
}

/// Customer details as the request builders take them.
#[derive(Clone, Debug, PartialEq)]
pub struct CustomerDetails {
    pub customer_id: Option<String>,
    pub name: Option<String>,
    pub email: Option<String>,
    pub phone: Option<String>,
    pub phone_country_code: Option<String>,
}

impl CustomerDetails {
    /// The customer details of a request, as the builders take them.
    pub open spec fn of_details(customer: crate::api::CustomerDetails) -> Self {
        CustomerDetails {
            customer_id: Some(customer.id),
            name: customer.name,
            email: customer.email,
            phone: customer.phone,
            phone_country_code: customer.phone_country_code,
        }
    }

    /// The customer details of a request, as the builders take them.
    pub fn foreign_from(customer: crate::api::CustomerDetails) -> (r: Self)
        ensures
            r == Self::of_details(customer),
    {
        CustomerDetails {
            customer_id: Some(customer.id),
            name: customer.name,
            email: customer.email,
            phone: customer.phone,
            phone_country_code: customer.phone_country_code,
        }
    }
}

impl Clone for ConnectorAuthType {
    fn clone(&self) -> (r: Self)
        ensures
            r == *self,
    {
        match self {
            ConnectorAuthType::TemporaryAuth => ConnectorAuthType::TemporaryAuth,
            ConnectorAuthType::HeaderKey { api_key } => ConnectorAuthType::HeaderKey {
                api_key: api_key.clone(),
            },
            ConnectorAuthType::BodyKey { api_key, key1 } => ConnectorAuthType::BodyKey {
                api_key: api_key.clone(),
                key1: key1.clone(),
            },
            ConnectorAuthType::SignatureKey {
                api_key,
                key1,
                api_secret,
            } => ConnectorAuthType::SignatureKey {
                api_key: api_key.clone(),
                key1: key1.clone(),
                api_secret: api_secret.clone(),
            },
            ConnectorAuthType::MultiAuthKey {
                api_key,
                key1,
                api_secret,
                key2,
            } => ConnectorAuthType::MultiAuthKey {
                api_key: api_key.clone(),
                key1: key1.clone(),
                api_secret: api_secret.clone(),
                key2: key2.clone(),
            },
            ConnectorAuthType::NoKey => ConnectorAuthType::NoKey,
        }
    }
}

/// The settings that the request construction reads.
#[derive(Clone, Debug, PartialEq)]
pub struct Settings {
    pub connector_request_reference_id_config: ConnectorRequestReferenceIdConfig,
    /// The connectors whose API version may be overridden per configuration.
    pub multiple_api_version_supported_connectors: Vec<crate::enums::Connector>,
}

/// What a request construction knows of the running service.
#[derive(Clone, Debug, PartialEq)]
pub struct SessionState {
    pub base_url: String,
    pub conf: Settings,
}

impl<F> PaymentData<F> {
    /// The records of a payment with the given intent, attempt, amount,
    /// currency and addresses, and without any sub-record.
    pub fn new(
        payment_intent: PaymentIntent,
        payment_attempt: PaymentAttempt,
        amount: MinorUnit,
        currency: Currency,
        address: PaymentAddress,
    ) -> (r: Self)
        ensures
            r.payment_intent == payment_intent,
            r.payment_attempt == payment_attempt,
            r.multiple_capture_data is None,
            r.amount == amount,
            r.mandate_id is None,
            r.setup_mandate is None,
            r.customer_acceptance is None,
            r.currency == currency,
            r.address == address,
            r.token is None,
            r.payment_method_data is None,
            r.payment_method_info is None,
            r.refunds@.len() == 0,
            r.disputes@.len() == 0,
            r.attempts is None,
            r.sessions_token@.len() == 0,
            r.email is None,
            r.creds_identifier is None,
            r.pm_token is None,
            r.connector_customer_id is None,
            r.recurring_mandate_payment_data is None,
            r.ephemeral_key is None,
            r.redirect_response is None,
            r.surcharge_details is None,
            r.frm_message is None,
            r.payment_link_data is None,
            r.incremental_authorization_details is None,
            r.authorizations@.len() == 0,
            r.authentication is None,
            r.poll_config is None,
            r.session_id is None,
    {
        PaymentData {
                flow: PhantomData,
                payment_intent,
                payment_attempt,
                multiple_capture_data: None,
                amount,
                mandate_id: None,
                setup_mandate: None,
                customer_acceptance: None,
                currency,
                address,
                token: None,
                payment_method_data: None,
                payment_method_info: None,
                refunds: Vec::new(),
                disputes: Vec::new(),
                attempts: None,
                sessions_token: Vec::new(),
                email: None,
                creds_identifier: None,
                pm_token: None,
                connector_customer_id: None,
                recurring_mandate_payment_data: None,
                ephemeral_key: None,
                redirect_response: None,
                surcharge_details: None,
                frm_message: None,
                payment_link_data: None,
                incremental_authorization_details: None,
                authorizations: Vec::new(),
                authentication: None,
                poll_config: None,
                session_id: None,
        }
    }
}

impl MultipleCaptureData {
    /// There is at least one capture, and the latest capture is the last of them.
    pub open spec fn wf(&self) -> bool {
        &&& self.all_captures@.len() > 0
        &&& self.latest_capture == self.all_captures@.last()
    }

    /// The capture data of an attempt whose captures are `captures`, in
    /// the order in which they were made. An attempt without captures has
    /// no capture data.
    pub fn new_for_sync(captures: Vec<Capture>, expand_captures: Option<bool>) -> (r: Result<
        Self,
        crate::errors::ApiErrorResponse,
    >)
        ensures
            match r {
                Ok(data) => {
                    &&& data.wf()
                    &&& data.all_captures == captures
                    &&& data.expand_captures == expand_captures
                },
                Err(e) => captures@.len() == 0 && e
                    == crate::errors::ApiErrorResponse::InternalServerError,
            },
    {
        let count = captures.len();
        if count == 0 {
            return Err(crate::errors::ApiErrorResponse::InternalServerError);
        }
        let latest_capture = captures[count - 1].clone();
        Ok(MultipleCaptureData { all_captures: captures, latest_capture, expand_captures })
    }
}

} // verus!
