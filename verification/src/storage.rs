//! Stored payment records: the intent, its attempts and their sub-records.

use vstd::prelude::*;

use crate::api::{
    Address, BankTransferNextStepsData, ConnectorMetadata, CustomerData, FetchQrCodeInformation,
    MinorUnit, OrderDetailsWithAmount, PaymentCharges, PaymentMethodDataResponse,
    PaymentMethodDataResponseWithBilling, QrCodeInformation, SdkNextActionData,
    VoucherNextStepData, WaitScreenInstructions,
};
use crate::document::Stored;
use crate::text::clone_opt_string;
use crate::enums::{
    AttemptStatus, AuthenticationStatus, AuthenticationType, CaptureMethod, CaptureStatus, Currency, FraudCheckStatus,
    FraudCheckType, FutureUsage, IntentStatus, PaymentExperience, PaymentMethod,
    PaymentMethodStatus, PaymentMethodType, PaymentSource, RequestIncrementalAuthorization,
};

verus! {

/// Tax computed for the order when no payment method type is chosen.
#[derive(Clone, Copy, Debug, PartialEq, Eq, Structural)]
pub struct DefaultTax {
    pub order_tax_amount: MinorUnit,
}

/// Tax computed for the order under one payment method type.
#[derive(Clone, Copy, Debug, PartialEq, Eq, Structural)]
pub struct PaymentMethodTypeTax {
    pub order_tax_amount: MinorUnit,
    pub pmt: PaymentMethodType,
}

#[derive(Clone, Copy, Debug, PartialEq, Eq, Structural)]
pub struct TaxDetails {
    pub default: Option<DefaultTax>,
    pub payment_method_type: Option<PaymentMethodTypeTax>,
}

/// The merchant-visible, connector-agnostic order.
#[derive(Clone, Debug, PartialEq)]
pub struct PaymentIntent {
    pub payment_id: String,
    pub merchant_id: String,
    pub status: IntentStatus,
    pub amount: MinorUnit,
    pub currency: Option<Currency>,
    pub amount_captured: Option<MinorUnit>,
    pub shipping_cost: Option<MinorUnit>,
    pub tax_details: Option<TaxDetails>,
    pub customer_id: Option<String>,
    pub description: Option<String>,
    pub return_url: Option<String>,
    pub client_secret: Option<String>,
    pub statement_descriptor_name: Option<String>,
    pub statement_descriptor_suffix: Option<String>,
    pub metadata: Option<serde_json::Value>,
    pub connector_metadata: Option<Stored<ConnectorMetadata>>,
    pub feature_metadata: Option<serde_json::Value>,
    pub frm_metadata: Option<serde_json::Value>,
    pub order_details: Option<Vec<Stored<OrderDetailsWithAmount>>>,
    pub setup_future_usage: Option<FutureUsage>,
    pub off_session: Option<bool>,
    pub created_at: time::PrimitiveDateTime,
    pub modified_at: time::PrimitiveDateTime,
    pub session_expiry: Option<time::PrimitiveDateTime>,
    pub business_country: Option<String>,
    pub business_label: Option<String>,
    pub allowed_payment_method_types: Option<serde_json::Value>,
    pub attempt_count: i16,
    pub profile_id: Option<String>,
    pub merchant_decision: Option<String>,
    pub incremental_authorization_allowed: Option<bool>,
    pub authorization_count: Option<i32>,
    pub fingerprint_id: Option<String>,
    pub payment_confirm_source: Option<PaymentSource>,
    pub customer_details: Option<Stored<CustomerData>>,
    pub billing_details: Option<Stored<Address>>,
    pub shipping_details: Option<Stored<Address>>,
    pub charges: Option<Stored<PaymentCharges>>,
    pub merchant_order_reference_id: Option<String>,
    pub request_incremental_authorization: Option<RequestIncrementalAuthorization>,
}

/// Transaction reference that the Helcim connector keeps in attempt metadata.
#[derive(Clone, Copy, Debug, PartialEq, Eq, Structural)]
pub struct HelcimMetaData {
    pub preauth_transaction_id: u64,
}

/// Transaction reference that the Nexinets connector keeps in attempt metadata.
#[derive(Clone, Debug, PartialEq)]
pub struct NexinetsPaymentsMetadata {
    pub transaction_id: Option<String>,
    pub order_id: Option<String>,
}

/// The connector metadata of an attempt: the stored document, and what it
/// yields under each of the shapes that this library looks for. A reading is
/// `None` when the document does not have that shape.
#[derive(Clone, Debug, PartialEq)]
pub struct AttemptMetadata {
    pub document: serde_json::Value,
    pub bank_transfer_next_steps: Option<BankTransferNextStepsData>,
    pub voucher_next_steps: Option<VoucherNextStepData>,
    pub qr_code: Option<QrCodeInformation>,
    pub fetch_qr_code: Option<FetchQrCodeInformation>,
    pub sdk_next_action: Option<SdkNextActionData>,
    pub wait_screen: Option<WaitScreenInstructions>,
    pub helcim: Option<HelcimMetaData>,
    pub nexinets: Option<NexinetsPaymentsMetadata>,
}

/// The payment method data of an attempt: the stored document and its two readings.
#[derive(Clone, Debug, PartialEq)]
pub struct AttemptPaymentMethodData {
    pub document: serde_json::Value,
    pub additional: Option<PaymentMethodDataResponse>,
    pub with_billing: Option<PaymentMethodDataResponseWithBilling>,
}

/// One connector-routed execution attempt against an intent.
#[derive(Clone, Debug, PartialEq)]
pub struct PaymentAttempt {
    pub payment_id: String,
    pub merchant_id: String,
    pub attempt_id: String,
    pub status: AttemptStatus,
    pub amount: MinorUnit,
    pub net_amount: MinorUnit,
    pub currency: Option<Currency>,
    pub connector: Option<String>,
    pub connector_transaction_id: Option<String>,
    pub payment_method: Option<PaymentMethod>,
    pub payment_method_type: Option<PaymentMethodType>,
    pub authentication_type: Option<AuthenticationType>,
    pub capture_method: Option<CaptureMethod>,
    pub amount_capturable: MinorUnit,
    pub amount_to_capture: Option<MinorUnit>,
    pub surcharge_amount: Option<MinorUnit>,
    pub tax_amount: Option<MinorUnit>,
    pub order_tax_amount: Option<MinorUnit>,
    pub mandate_id: Option<String>,
    pub browser_info: Option<Stored<crate::types::BrowserInformation>>,
    pub connector_metadata: Option<AttemptMetadata>,
    pub payment_method_data: Option<AttemptPaymentMethodData>,
    pub authentication_data: Option<Stored<crate::types::RedirectForm>>,
    pub encoded_data: Option<String>,
    pub confirm: bool,
    pub payment_experience: Option<PaymentExperience>,
    pub payment_token: Option<String>,
    pub cancellation_reason: Option<String>,
    pub error_code: Option<String>,
    pub error_message: Option<String>,
    pub error_reason: Option<String>,
    pub unified_code: Option<String>,
    pub unified_message: Option<String>,
    pub business_sub_label: Option<String>,
    pub preprocessing_step_id: Option<String>,
    pub merchant_connector_id: Option<String>,
    pub connector_response_reference_id: Option<String>,
    pub external_three_ds_authentication_attempted: Option<bool>,
    pub payment_method_id: Option<String>,
    pub charge_id: Option<String>,
}

/// One partial capture of an attempt.
#[derive(Debug, PartialEq)]
pub struct Capture {
    pub capture_id: String,
    pub payment_id: String,
    pub merchant_id: String,
    pub status: CaptureStatus,
    pub amount: MinorUnit,
    pub currency: Option<Currency>,
    pub connector: String,
    pub error_message: Option<String>,
    pub error_code: Option<String>,
    pub error_reason: Option<String>,
    pub authorized_attempt_id: String,
    pub connector_capture_id: Option<String>,
    pub capture_sequence: i16,
    pub connector_response_reference_id: Option<String>,
}

/// A state transition of one capture.
#[derive(Clone, Debug, PartialEq)]
pub enum CaptureUpdate {
    ResponseUpdate {
        status: CaptureStatus,
        connector_capture_id: Option<String>,
        connector_response_reference_id: Option<String>,
    },
    ErrorUpdate {
        status: CaptureStatus,
        error_code: Option<String>,
        error_message: Option<String>,
        error_reason: Option<String>,
    },
}

#[derive(Clone, Debug, PartialEq)]
pub struct EphemeralKey {
    pub id: String,
    pub merchant_id: String,
    pub customer_id: String,
    pub created_at: i64,
    pub expires: i64,
    pub secret: String,
}

#[derive(Clone, Copy, Debug, PartialEq, Eq, Structural)]
pub struct SemanticVersion {
    pub major: u64,
    pub minor: u64,
    pub patch: u64,
}

/// Record of an external 3-D Secure authentication.
#[derive(Clone, Debug, PartialEq)]
pub struct Authentication {
    pub authentication_id: String,
    pub cavv: Option<String>,
    pub maximum_supported_version: Option<SemanticVersion>,
    pub message_version: Option<String>,
    pub three_ds_method_url: Option<String>,
    pub three_ds_method_data: Option<String>,
    pub directory_server_id: Option<String>,
    pub authentication_flow: Option<String>,
    pub electronic_commerce_indicator: Option<String>,
    pub authentication_status: AuthenticationStatus,
    pub threeds_server_transaction_id: Option<String>,
    pub ds_transaction_id: Option<String>,
    pub error_code: Option<String>,
    pub error_message: Option<String>,
}

/// Outcome of a fraud check on a payment.
#[derive(Clone, Debug, PartialEq)]
pub struct FraudCheck {
    pub frm_name: String,
    pub frm_transaction_id: Option<String>,
    pub frm_transaction_type: FraudCheckType,
    pub frm_status: FraudCheckStatus,
    pub frm_score: Option<i32>,
    pub frm_reason: Option<serde_json::Value>,
    pub frm_error: Option<String>,
}

/// A payment method kept for a customer.
#[derive(Clone, Debug, PartialEq)]
pub struct PaymentMethodInfo {
    pub payment_method_id: String,
    pub status: PaymentMethodStatus,
    pub payment_method_billing_address: Option<Stored<Address>>,
}

impl Clone for Capture {
    fn clone(&self) -> (r: Self)
        ensures
            r == *self,
    {
        Capture {
            capture_id: self.capture_id.clone(),
            payment_id: self.payment_id.clone(),
            merchant_id: self.merchant_id.clone(),
            status: self.status,
            amount: self.amount,
            currency: self.currency,
            connector: self.connector.clone(),
            error_message: clone_opt_string(&self.error_message),
            error_code: clone_opt_string(&self.error_code),
            error_reason: clone_opt_string(&self.error_reason),
            authorized_attempt_id: self.authorized_attempt_id.clone(),
            connector_capture_id: clone_opt_string(&self.connector_capture_id),
            capture_sequence: self.capture_sequence,
            connector_response_reference_id: clone_opt_string(
                &self.connector_response_reference_id,
            ),
        }
    }
}

impl PaymentIntent {
    /// An intent with the given identity, state and amount: on its first
    /// attempt, and with every optional part absent.
    pub fn new(
        payment_id: String,
        merchant_id: String,
        status: IntentStatus,
        amount: MinorUnit,
        created_at: time::PrimitiveDateTime,
        modified_at: time::PrimitiveDateTime,
    ) -> (r: Self)
        ensures
            r.payment_id == payment_id,
            r.merchant_id == merchant_id,
            r.status == status,
            r.amount == amount,
            r.currency is None,
            r.amount_captured is None,
            r.shipping_cost is None,
            r.tax_details is None,
            r.customer_id is None,
            r.description is None,
            r.return_url is None,
            r.client_secret is None,
            r.statement_descriptor_name is None,
            r.statement_descriptor_suffix is None,
            r.metadata is None,
            r.connector_metadata is None,
            r.feature_metadata is None,
            r.frm_metadata is None,
            r.order_details is None,
            r.setup_future_usage is None,
            r.off_session is None,
            r.created_at == created_at,
            r.modified_at == modified_at,
            r.session_expiry is None,
            r.business_country is None,
            r.business_label is None,
            r.allowed_payment_method_types is None,
            r.attempt_count == 1,
            r.profile_id is None,
            r.merchant_decision is None,
            r.incremental_authorization_allowed is None,
            r.authorization_count is None,
            r.fingerprint_id is None,
            r.payment_confirm_source is None,
            r.customer_details is None,
            r.billing_details is None,
            r.shipping_details is None,
            r.charges is None,
            r.merchant_order_reference_id is None,
            r.request_incremental_authorization is None,
    {
        PaymentIntent {
                payment_id,
                merchant_id,
                status,
                amount,
                currency: None,
                amount_captured: None,
                shipping_cost: None,
                tax_details: None,
                customer_id: None,
                description: None,
                return_url: None,
                client_secret: None,
                statement_descriptor_name: None,
                statement_descriptor_suffix: None,
                metadata: None,
                connector_metadata: None,
                feature_metadata: None,
                frm_metadata: None,
                order_details: None,
                setup_future_usage: None,
                off_session: None,
                created_at,
                modified_at,
                session_expiry: None,
                business_country: None,
                business_label: None,
                allowed_payment_method_types: None,
                attempt_count: 1,
                profile_id: None,
                merchant_decision: None,
                incremental_authorization_allowed: None,
                authorization_count: None,
                fingerprint_id: None,
                payment_confirm_source: None,
                customer_details: None,
                billing_details: None,
                shipping_details: None,
                charges: None,
                merchant_order_reference_id: None,
                request_incremental_authorization: None,
        }
    }
}

impl PaymentAttempt {
    /// An attempt with the given identity, state and amount: its net amount
    /// is the amount, nothing of it is capturable, it is not confirmed, and
    /// every optional part is absent.
    pub fn new(
        payment_id: String,
        merchant_id: String,
        attempt_id: String,
        status: AttemptStatus,
        amount: MinorUnit,
    ) -> (r: Self)
        ensures
            r.payment_id == payment_id,
            r.merchant_id == merchant_id,
            r.attempt_id == attempt_id,
            r.status == status,
            r.amount == amount,
            r.net_amount == amount,
            r.currency is None,
            r.connector is None,
            r.connector_transaction_id is None,
            r.payment_method is None,
            r.payment_method_type is None,
            r.authentication_type is None,
            r.capture_method is None,
            r.amount_capturable == MinorUnit(0),
            r.amount_to_capture is None,
            r.surcharge_amount is None,
            r.tax_amount is None,
            r.order_tax_amount is None,
            r.mandate_id is None,
            r.browser_info is None,
            r.connector_metadata is None,
            r.payment_method_data is None,
            r.authentication_data is None,
            r.encoded_data is None,
            !r.confirm,
            r.payment_experience is None,
            r.payment_token is None,
            r.cancellation_reason is None,
            r.error_code is None,
            r.error_message is None,
            r.error_reason is None,
            r.unified_code is None,
            r.unified_message is None,
            r.business_sub_label is None,
            r.preprocessing_step_id is None,
            r.merchant_connector_id is None,
            r.connector_response_reference_id is None,
            r.external_three_ds_authentication_attempted is None,
            r.payment_method_id is None,
            r.charge_id is None,
    {
        PaymentAttempt {
                payment_id,
                merchant_id,
                attempt_id,
                status,
                amount,
                net_amount: amount,
                currency: None,
                connector: None,
                connector_transaction_id: None,
                payment_method: None,
                payment_method_type: None,
                authentication_type: None,
                capture_method: None,
                amount_capturable: MinorUnit(0),
                amount_to_capture: None,
                surcharge_amount: None,
                tax_amount: None,
                order_tax_amount: None,
                mandate_id: None,
                browser_info: None,
                connector_metadata: None,
                payment_method_data: None,
                authentication_data: None,
                encoded_data: None,
                confirm: false,
                payment_experience: None,
                payment_token: None,
                cancellation_reason: None,
                error_code: None,
                error_message: None,
                error_reason: None,
                unified_code: None,
                unified_message: None,
                business_sub_label: None,
                preprocessing_step_id: None,
                merchant_connector_id: None,
                connector_response_reference_id: None,
                external_three_ds_authentication_attempted: None,
                payment_method_id: None,
                charge_id: None,
        }
    }
}

impl AttemptMetadata {
    /// Metadata that hold `document` and have none of the shapes that are looked for.
    pub fn new(
        document: serde_json::Value,
    ) -> (r: Self)
        ensures
            r.document == document,
            r.bank_transfer_next_steps is None,
            r.voucher_next_steps is None,
            r.qr_code is None,
            r.fetch_qr_code is None,
            r.sdk_next_action is None,
            r.wait_screen is None,
            r.helcim is None,
            r.nexinets is None,
    {
        AttemptMetadata {
                document,
                bank_transfer_next_steps: None,
                voucher_next_steps: None,
                qr_code: None,
                fetch_qr_code: None,
                sdk_next_action: None,
                wait_screen: None,
                helcim: None,
                nexinets: None,
        }
    }
}

} // verus!
