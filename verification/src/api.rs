//! The client-facing payment representation and its parts.

use vstd::prelude::*;

use crate::text::clone_opt_string;
use crate::enums::{
    AttemptStatus, AuthenticationType, CaptureMethod, CaptureStatus, FutureUsage, IntentStatus,
    NextActionCall, PaymentChargeType, PaymentExperience, PaymentMethod, PaymentMethodStatus,
    PaymentMethodType, AcceptanceType, AuthenticationStatus, Currency,
};

verus! {

/// An amount in the smallest unit of its currency.
#[derive(Clone, Copy, Debug, PartialEq, Eq, Structural)]
pub struct MinorUnit(pub i64);

impl MinorUnit {
    /// An amount of `value` minor units.
    pub fn new(value: i64) -> (r: Self)
        ensures
            r.0 == value,
    {
        MinorUnit(value)
    }

    /// The number of minor units.
    pub fn get_amount_as_i64(&self) -> (r: i64)
        ensures
            r == self.0,
    {
        self.0
    }
}

#[derive(Debug, PartialEq)]
pub struct PhoneDetails {
    pub number: Option<String>,
    pub country_code: Option<String>,
}

#[derive(Debug, PartialEq)]
pub struct AddressDetails {
    pub city: Option<String>,
    pub country: Option<String>,
    pub line1: Option<String>,
    pub line2: Option<String>,
    pub line3: Option<String>,
    pub zip: Option<String>,
    pub state: Option<String>,
    pub first_name: Option<String>,
    pub last_name: Option<String>,
}

#[derive(Debug, PartialEq)]
pub struct Address {
    pub address: Option<AddressDetails>,
    pub phone: Option<PhoneDetails>,
    pub email: Option<String>,
}

#[derive(Debug, PartialEq)]
pub struct Card {
    pub card_number: String,
    pub card_exp_month: String,
    pub card_exp_year: String,
    pub card_holder_name: String,
    pub card_cvc: String,
}

/// What the customer pays with. Only card details are read by this
/// library; the other instruments are carried as documents.
#[derive(Clone, Debug, PartialEq)]
pub enum PaymentMethodData {
    Card(Card),
    CardRedirect(serde_json::Value),
    Wallet(serde_json::Value),
    PayLater(serde_json::Value),
    BankRedirect(serde_json::Value),
    BankDebit(serde_json::Value),
    BankTransfer(serde_json::Value),
    Crypto(serde_json::Value),
    MandatePayment,
    Reward,
    RealTimePayment(serde_json::Value),
    Upi(serde_json::Value),
    Voucher(serde_json::Value),
    GiftCard(serde_json::Value),
    CardToken(serde_json::Value),
    OpenBanking(serde_json::Value),
    NetworkToken(serde_json::Value),
}

/// Customer details as a client sends them.
#[derive(Clone, Debug, PartialEq)]
pub struct CustomerDetails {
    pub id: String,
    pub name: Option<String>,
    pub email: Option<String>,
    pub phone: Option<String>,
    pub phone_country_code: Option<String>,
}

/// Customer details as a client receives them.
#[derive(Debug, PartialEq)]
pub struct CustomerDetailsResponse {
    pub id: Option<String>,
    pub name: Option<String>,
    pub email: Option<String>,
    pub phone: Option<String>,
    pub phone_country_code: Option<String>,
}

/// Customer snapshot kept on the intent.
#[derive(Clone, Debug, PartialEq)]
pub struct CustomerData {
    pub name: Option<String>,
    pub email: Option<String>,
    pub phone: Option<String>,
    pub phone_country_code: Option<String>,
}

#[derive(Clone, Debug, PartialEq)]
pub struct FrmMessage {
    pub frm_name: String,
    pub frm_transaction_id: Option<String>,
    pub frm_transaction_type: Option<String>,
    pub frm_status: Option<String>,
    pub frm_score: Option<i32>,
    pub frm_reason: Option<serde_json::Value>,
    pub frm_error: Option<String>,
}

#[derive(Clone, Copy, Debug, PartialEq, Eq, Structural)]
pub struct RequestSurchargeDetails {
    pub surcharge_amount: MinorUnit,
    pub tax_amount: Option<MinorUnit>,
}

/// Split-payment instructions kept on the intent.
#[derive(Clone, Debug, PartialEq)]
pub struct PaymentCharges {
    pub charge_type: PaymentChargeType,
    pub fees: MinorUnit,
    pub transfer_account_id: String,
}

#[derive(Clone, Debug, PartialEq)]
pub struct PaymentChargeResponse {
    pub charge_id: Option<String>,
    pub charge_type: PaymentChargeType,
    pub application_fees: MinorUnit,
    pub transfer_account_id: String,
}

#[derive(Clone, Debug, PartialEq)]
pub struct OrderDetails {
    pub product_name: String,
    pub quantity: u16,
    pub requires_shipping: Option<bool>,
    pub product_img_link: Option<String>,
    pub product_id: Option<String>,
    pub category: Option<String>,
    pub sub_category: Option<String>,
    pub brand: Option<String>,
    pub product_type: Option<String>,
    pub product_tax_code: Option<String>,
}

#[derive(Debug, PartialEq)]
pub struct OrderDetailsWithAmount {
    pub product_name: String,
    pub quantity: u16,
    pub amount: i64,
    pub requires_shipping: Option<bool>,
    pub product_img_link: Option<String>,
    pub product_id: Option<String>,
    pub category: Option<String>,
    pub sub_category: Option<String>,
    pub brand: Option<String>,
    pub product_type: Option<String>,
    pub product_tax_code: Option<String>,
}

/// Connector-specific order metadata kept on the intent.
#[derive(Clone, Debug, PartialEq)]
pub struct ConnectorMetadata {
    pub apple_pay: Option<serde_json::Value>,
    pub airwallex: Option<serde_json::Value>,
    pub noon: Option<NoonData>,
}

#[derive(Clone, Debug, PartialEq)]
pub struct NoonData {
    pub order_category: Option<String>,
}

#[derive(Debug, PartialEq)]
pub enum QrCodeInformation {
    QrCodeUrl { image_data_url: String, qr_code_url: String, display_to_timestamp: Option<i64> },
    QrDataUrl { image_data_url: String, display_to_timestamp: Option<i64> },
    QrCodeImageUrl { qr_code_url: String, display_to_timestamp: Option<i64> },
}

#[derive(Debug, PartialEq)]
pub struct FetchQrCodeInformation {
    pub qr_code_fetch_url: String,
}

#[derive(Clone, Copy, Debug, PartialEq, Eq, Structural)]
pub struct SdkNextActionData {
    pub next_action: NextActionCall,
}

#[derive(Clone, Copy, Debug, PartialEq, Eq, Structural)]
pub struct WaitScreenInstructions {
    pub display_from_timestamp: i128,
    pub display_to_timestamp: Option<i128>,
}

/// Instructions for completing a bank transfer.
#[derive(Debug, PartialEq)]
pub struct BankTransferNextStepsData {
    pub bank_transfer_instructions: serde_json::Value,
    pub receiver: Option<ReceiverDetails>,
}

#[derive(Clone, Copy, Debug, PartialEq, Eq, Structural)]
pub struct ReceiverDetails {
    pub amount_received: i64,
    pub amount_charged: Option<i64>,
    pub amount_remaining: Option<i64>,
}

/// Instructions for paying with a voucher.
#[derive(Debug, PartialEq)]
pub struct VoucherNextStepData {
    pub expires_at: Option<i64>,
    pub reference: String,
    pub download_url: Option<String>,
    pub instructions_url: Option<String>,
}

/// A session token issued by a connector for a client SDK.
#[derive(Debug, PartialEq)]
pub struct SessionToken {
    pub connector: String,
    pub token: serde_json::Value,
}

#[derive(Clone, Debug, PartialEq)]
pub enum ThreeDsMethodData {
    AcsThreeDsMethodData {
        three_ds_method_data_submission: bool,
        three_ds_method_data: Option<String>,
        three_ds_method_url: Option<String>,
    },
}

#[derive(Clone, Debug, PartialEq)]
pub struct PollConfigResponse {
    pub poll_id: String,
    pub delay_in_secs: i8,
    pub frequency: i8,
}

#[derive(Clone, Debug, PartialEq)]
pub struct ThreeDsData {
    pub three_ds_authentication_url: String,
    pub three_ds_authorize_url: String,
    pub three_ds_method_details: ThreeDsMethodData,
    pub poll_config: PollConfigResponse,
    pub message_version: Option<String>,
    pub directory_server_id: Option<String>,
}

/// The one step a client must take next to complete a payment.
#[derive(Clone, Debug, PartialEq)]
pub enum NextActionData {
    RedirectToUrl { redirect_to_url: String },
    DisplayBankTransferInformation {
        bank_transfer_steps_and_charges_details: BankTransferNextStepsData,
    },
    ThirdPartySdkSessionToken { session_token: Option<SessionToken> },
    QrCodeInformation {
        image_data_url: Option<String>,
        display_to_timestamp: Option<i64>,
        qr_code_url: Option<String>,
    },
    FetchQrCodeInformation { qr_code_fetch_url: String },
    DisplayVoucherInformation { voucher_details: VoucherNextStepData },
    WaitScreenInformation { display_from_timestamp: i128, display_to_timestamp: Option<i128> },
    ThreeDsInvoke { three_ds_data: ThreeDsData },
    InvokeSdkClient { next_action_data: SdkNextActionData },
}

#[derive(Clone, Debug, PartialEq)]
pub struct MandateAmountData {
    pub amount: MinorUnit,
    pub currency: Currency,
    pub start_date: Option<time::PrimitiveDateTime>,
    pub end_date: Option<time::PrimitiveDateTime>,
    pub metadata: Option<serde_json::Value>,
}

#[derive(Clone, Debug, PartialEq)]
pub enum MandateType {
    SingleUse(MandateAmountData),
    MultiUse(Option<MandateAmountData>),
}

#[derive(Clone, Debug, PartialEq)]
pub struct OnlineMandate {
    pub ip_address: Option<String>,
    pub user_agent: String,
}

#[derive(Clone, Debug, PartialEq)]
pub struct CustomerAcceptance {
    pub acceptance_type: AcceptanceType,
    pub accepted_at: Option<time::PrimitiveDateTime>,
    pub online: Option<OnlineMandate>,
}

#[derive(Clone, Debug, PartialEq)]
pub struct MandateData {
    pub update_mandate_id: Option<String>,
    pub customer_acceptance: Option<CustomerAcceptance>,
    pub mandate_type: Option<MandateType>,
}

/// What is shown to a client of a stored payment method.
#[derive(Clone, Debug, PartialEq)]
pub struct PaymentMethodDataResponse {
    pub details: serde_json::Value,
}

#[derive(Clone, Debug, PartialEq)]
pub struct PaymentMethodDataResponseWithBilling {
    pub payment_method_data: Option<PaymentMethodDataResponse>,
    pub billing: Option<Address>,
}

#[derive(Debug, PartialEq)]
pub struct EphemeralKeyCreateResponse {
    pub customer_id: String,
    pub created_at: i64,
    pub expires: i64,
    pub secret: String,
}

#[derive(Clone, Debug, PartialEq)]
pub struct PaymentLinkResponse {
    pub link: String,
    pub secure_link: Option<String>,
    pub payment_link_id: String,
}

#[derive(Clone, Debug, PartialEq)]
pub struct RefundResponse {
    pub refund_id: String,
    pub payment_id: String,
    pub amount: MinorUnit,
    pub currency: Currency,
    pub reason: Option<String>,
    pub connector: String,
}

#[derive(Clone, Debug, PartialEq)]
pub struct DisputeResponsePaymentsRetrieve {
    pub dispute_id: String,
    pub amount: String,
    pub currency: String,
    pub connector_dispute_id: String,
    pub connector_reason: Option<String>,
}

#[derive(Clone, Debug, PartialEq)]
pub struct IncrementalAuthorizationResponse {
    pub authorization_id: String,
    pub amount: MinorUnit,
    pub error_code: Option<String>,
    pub error_message: Option<String>,
    pub previously_authorized_amount: MinorUnit,
}

#[derive(Clone, Debug, PartialEq)]
pub struct ExternalAuthenticationDetailsResponse {
    pub authentication_flow: Option<String>,
    pub electronic_commerce_indicator: Option<String>,
    pub status: AuthenticationStatus,
    pub ds_transaction_id: Option<String>,
    pub version: Option<String>,
    pub error_code: Option<String>,
    pub error_message: Option<String>,
}

#[derive(Clone, Debug, PartialEq)]
pub struct PaymentAttemptResponse {
    pub attempt_id: String,
    pub status: AttemptStatus,
    pub amount: MinorUnit,
    pub currency: Option<Currency>,
    pub connector: Option<String>,
    pub error_message: Option<String>,
    pub payment_method: Option<PaymentMethod>,
    pub connector_transaction_id: Option<String>,
}

#[derive(Debug, PartialEq)]
pub struct CaptureResponse {
    pub capture_id: String,
    pub status: CaptureStatus,
    pub amount: MinorUnit,
    pub currency: Option<Currency>,
    pub connector: String,
    pub authorized_attempt_id: String,
    pub connector_capture_id: Option<String>,
    pub capture_sequence: i16,
    pub error_message: Option<String>,
    pub error_code: Option<String>,
    pub error_reason: Option<String>,
    pub reference_id: Option<String>,
}

/// The externally visible form of a payment.
#[derive(Clone, Debug, PartialEq)]
pub struct PaymentsResponse {
    pub payment_id: String,
    pub merchant_id: String,
    pub status: IntentStatus,
    pub amount: MinorUnit,
    pub net_amount: MinorUnit,
    pub amount_capturable: MinorUnit,
    pub amount_received: Option<MinorUnit>,
    pub connector: Option<String>,
    pub client_secret: Option<String>,
    pub created: Option<time::PrimitiveDateTime>,
    pub currency: String,
    pub customer_id: Option<String>,
    pub customer: Option<CustomerDetailsResponse>,
    pub description: Option<String>,
    pub refunds: Option<Vec<RefundResponse>>,
    pub disputes: Option<Vec<DisputeResponsePaymentsRetrieve>>,
    pub attempts: Option<Vec<PaymentAttemptResponse>>,
    pub captures: Option<Vec<CaptureResponse>>,
    pub mandate_id: Option<String>,
    pub mandate_data: Option<MandateData>,
    pub setup_future_usage: Option<FutureUsage>,
    pub off_session: Option<bool>,
    pub capture_on: Option<time::PrimitiveDateTime>,
    pub capture_method: Option<CaptureMethod>,
    pub payment_method: Option<PaymentMethod>,
    pub payment_method_data: Option<PaymentMethodDataResponseWithBilling>,
    pub payment_token: Option<String>,
    pub shipping: Option<Address>,
    pub billing: Option<Address>,
    pub order_details: Option<Vec<serde_json::Value>>,
    pub email: Option<String>,
    pub name: Option<String>,
    pub phone: Option<String>,
    pub return_url: Option<String>,
    pub authentication_type: Option<AuthenticationType>,
    pub statement_descriptor_name: Option<String>,
    pub statement_descriptor_suffix: Option<String>,
    pub next_action: Option<NextActionData>,
    pub cancellation_reason: Option<String>,
    pub error_code: Option<String>,
    pub error_message: Option<String>,
    pub unified_code: Option<String>,
    pub unified_message: Option<String>,
    pub payment_experience: Option<PaymentExperience>,
    pub payment_method_type: Option<PaymentMethodType>,
    pub connector_label: Option<String>,
    pub business_country: Option<String>,
    pub business_label: Option<String>,
    pub business_sub_label: Option<String>,
    pub allowed_payment_method_types: Option<serde_json::Value>,
    pub ephemeral_key: Option<EphemeralKeyCreateResponse>,
    pub manual_retry_allowed: Option<bool>,
    pub connector_transaction_id: Option<String>,
    pub frm_message: Option<FrmMessage>,
    pub metadata: Option<serde_json::Value>,
    pub connector_metadata: Option<serde_json::Value>,
    pub feature_metadata: Option<serde_json::Value>,
    pub reference_id: Option<String>,
    pub payment_link: Option<PaymentLinkResponse>,
    pub profile_id: Option<String>,
    pub surcharge_details: Option<RequestSurchargeDetails>,
    pub attempt_count: i16,
    pub merchant_decision: Option<String>,
    pub merchant_connector_id: Option<String>,
    pub incremental_authorization_allowed: Option<bool>,
    pub authorization_count: Option<i32>,
    pub incremental_authorizations: Option<Vec<IncrementalAuthorizationResponse>>,
    pub external_authentication_details: Option<ExternalAuthenticationDetailsResponse>,
    pub external_3ds_authentication_attempted: Option<bool>,
    pub expires_on: Option<time::PrimitiveDateTime>,
    pub fingerprint: Option<String>,
    pub browser_info: Option<serde_json::Value>,
    pub payment_method_id: Option<String>,
    pub payment_method_status: Option<PaymentMethodStatus>,
    pub updated: Option<time::PrimitiveDateTime>,
    pub charges: Option<PaymentChargeResponse>,
    pub frm_metadata: Option<serde_json::Value>,
    pub merchant_order_reference_id: Option<String>,
    pub order_tax_amount: Option<MinorUnit>,
}

#[derive(Clone, Debug, PartialEq)]
pub struct PaymentsSessionResponse {
    pub payment_id: String,
    pub client_secret: String,
    pub session_token: Vec<SessionToken>,
}

/// Amounts of a tax calculation in display form.
#[derive(Clone, Debug, PartialEq)]
pub struct DisplayAmountOnSdk {
    pub net_amount: String,
    pub order_tax_amount: Option<String>,
    pub shipping_cost: Option<String>,
}

#[derive(Clone, Debug, PartialEq)]
pub struct PaymentsDynamicTaxCalculationResponse {
    pub payment_id: String,
    pub net_amount: MinorUnit,
    pub order_tax_amount: Option<MinorUnit>,
    pub shipping_cost: Option<MinorUnit>,
    pub display_amount: DisplayAmountOnSdk,
}

#[derive(Clone, Debug, PartialEq)]
pub struct VerifyResponse {
    pub verify_id: Option<String>,
    pub merchant_id: Option<String>,
    pub client_secret: Option<String>,
    pub customer_id: Option<String>,
    pub email: Option<String>,
    pub name: Option<String>,
    pub phone: Option<String>,
    pub mandate_id: Option<String>,
    pub payment_method: Option<PaymentMethod>,
    pub payment_method_data: Option<PaymentMethodDataResponse>,
    pub payment_token: Option<String>,
    pub error_code: Option<String>,
    pub error_message: Option<String>,
}

impl Clone for QrCodeInformation {
    fn clone(&self) -> (r: Self)
        ensures
            r == *self,
    {
        match self {
            QrCodeInformation::QrCodeUrl { image_data_url, qr_code_url, display_to_timestamp } => {
                QrCodeInformation::QrCodeUrl {
                    image_data_url: image_data_url.clone(),
                    qr_code_url: qr_code_url.clone(),
                    display_to_timestamp: *display_to_timestamp,
                }
            },
            QrCodeInformation::QrDataUrl { image_data_url, display_to_timestamp } => {
                QrCodeInformation::QrDataUrl {
                    image_data_url: image_data_url.clone(),
                    display_to_timestamp: *display_to_timestamp,
                }
            },
            QrCodeInformation::QrCodeImageUrl { qr_code_url, display_to_timestamp } => {
                QrCodeInformation::QrCodeImageUrl {
                    qr_code_url: qr_code_url.clone(),
                    display_to_timestamp: *display_to_timestamp,
                }
            },
        }
    }
}

impl Clone for FetchQrCodeInformation {
    fn clone(&self) -> (r: Self)
        ensures
            r == *self,
    {
        FetchQrCodeInformation { qr_code_fetch_url: self.qr_code_fetch_url.clone() }
    }
}

impl Clone for BankTransferNextStepsData {
    fn clone(&self) -> (r: Self)
        ensures
            r == *self,
    {
        BankTransferNextStepsData {
            bank_transfer_instructions: self.bank_transfer_instructions.clone(),
            receiver: self.receiver,
        }
    }
}

impl Clone for VoucherNextStepData {
    fn clone(&self) -> (r: Self)
        ensures
            r == *self,
    {
        VoucherNextStepData {
            expires_at: self.expires_at,
            reference: self.reference.clone(),
            download_url: clone_opt_string(&self.download_url),
            instructions_url: clone_opt_string(&self.instructions_url),
        }
    }
}

impl Clone for SessionToken {
    fn clone(&self) -> (r: Self)
        ensures
            r == *self,
    {
        SessionToken { connector: self.connector.clone(), token: self.token.clone() }
    }
}

impl Clone for CaptureResponse {
    fn clone(&self) -> (r: Self)
        ensures
            r == *self,
    {
        CaptureResponse {
            capture_id: self.capture_id.clone(),
            status: self.status,
            amount: self.amount,
            currency: self.currency,
            connector: self.connector.clone(),
            authorized_attempt_id: self.authorized_attempt_id.clone(),
            connector_capture_id: clone_opt_string(&self.connector_capture_id),
            capture_sequence: self.capture_sequence,
            error_message: clone_opt_string(&self.error_message),
            error_code: clone_opt_string(&self.error_code),
            error_reason: clone_opt_string(&self.error_reason),
            reference_id: clone_opt_string(&self.reference_id),
        }
    }
}

impl Clone for CustomerDetailsResponse {
    fn clone(&self) -> (r: Self)
        ensures
            r == *self,
    {
        CustomerDetailsResponse {
            id: clone_opt_string(&self.id),
            name: clone_opt_string(&self.name),
            email: clone_opt_string(&self.email),
            phone: clone_opt_string(&self.phone),
            phone_country_code: clone_opt_string(&self.phone_country_code),
        }
    }
}

impl Clone for EphemeralKeyCreateResponse {
    fn clone(&self) -> (r: Self)
        ensures
            r == *self,
    {
        EphemeralKeyCreateResponse {
            customer_id: self.customer_id.clone(),
            created_at: self.created_at,
            expires: self.expires,
            secret: self.secret.clone(),
        }
    }
}

impl Clone for OrderDetailsWithAmount {
    fn clone(&self) -> (r: Self)
        ensures
            r == *self,
    {
        OrderDetailsWithAmount {
            product_name: self.product_name.clone(),
            quantity: self.quantity,
            amount: self.amount,
            requires_shipping: self.requires_shipping,
            product_img_link: clone_opt_string(&self.product_img_link),
            product_id: clone_opt_string(&self.product_id),
            category: clone_opt_string(&self.category),
            sub_category: clone_opt_string(&self.sub_category),
            brand: clone_opt_string(&self.brand),
            product_type: clone_opt_string(&self.product_type),
            product_tax_code: clone_opt_string(&self.product_tax_code),
        }
    }
}

impl Clone for PhoneDetails {
    fn clone(&self) -> (r: Self)
        ensures
            r == *self,
    {
        PhoneDetails {
            number: clone_opt_string(&self.number),
            country_code: clone_opt_string(&self.country_code),
        }
    }
}

impl Clone for AddressDetails {
    fn clone(&self) -> (r: Self)
        ensures
            r == *self,
    {
        AddressDetails {
            city: clone_opt_string(&self.city),
            country: clone_opt_string(&self.country),
            line1: clone_opt_string(&self.line1),
            line2: clone_opt_string(&self.line2),
            line3: clone_opt_string(&self.line3),
            zip: clone_opt_string(&self.zip),
            state: clone_opt_string(&self.state),
            first_name: clone_opt_string(&self.first_name),
            last_name: clone_opt_string(&self.last_name),
        }
    }
}

impl Clone for Address {
    fn clone(&self) -> (r: Self)
        ensures
            r == *self,
    {
        Address {
            address: match &self.address {
                Some(a) => Some(a.clone()),
                None => None,
            },
            phone: match &self.phone {
                Some(p) => Some(p.clone()),
                None => None,
            },
            email: clone_opt_string(&self.email),
        }
    }
}

impl Clone for Card {
    fn clone(&self) -> (r: Self)
        ensures
            r == *self,
    {
        Card {
            card_number: self.card_number.clone(),
            card_exp_month: self.card_exp_month.clone(),
            card_exp_year: self.card_exp_year.clone(),
            card_holder_name: self.card_holder_name.clone(),
            card_cvc: self.card_cvc.clone(),
        }
    }
}

} // verus!
