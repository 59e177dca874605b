//! The decision of what a client must do next to complete a payment.
//!
//! The candidate steps are read from the attempt; exactly one of them, the
//! first present in a fixed order of precedence, reaches the response.

use vstd::prelude::*;

use crate::api::{
    BankTransferNextStepsData, FetchQrCodeInformation, NextActionData, PollConfigResponse,
    QrCodeInformation, SdkNextActionData, SessionToken, ThreeDsData, ThreeDsMethodData,
    VoucherNextStepData, WaitScreenInstructions,
};
use crate::enums::{IntentStatus, Operation, PaymentMethod, PaymentMethodType};
use crate::errors::{ApiErrorResponse, RouterResult};
use crate::helpers::{
    authentication_poll_id, authentication_url, authorize_url, create_authentication_url,
    create_authorize_url, create_startpay_url, get_external_authentication_request_poll_id,
    startpay_url,
};
use crate::storage::{Authentication, PaymentAttempt, PaymentIntent};
use crate::text::{clone_opt_string, str_eq};
use crate::types::PollConfig;

verus! {

/// Bank-transfer instructions of an attempt, if its metadata hold any.
pub open spec fn bank_transfer_next_steps(attempt: PaymentAttempt) -> Option<
    BankTransferNextStepsData,
> {
    match attempt.connector_metadata {
        Some(metadata) => metadata.bank_transfer_next_steps,
        None => None,
    }
}

/// Never fails: metadata of another shape mean that there are no
/// bank-transfer instructions.
pub fn bank_transfer_next_steps_check(payment_attempt: &PaymentAttempt) -> (r: RouterResult<
    Option<BankTransferNextStepsData>,
>)
    ensures
        r == Ok::<_, ApiErrorResponse>(bank_transfer_next_steps(*payment_attempt)),
{
    match &payment_attempt.connector_metadata {
        Some(metadata) => match &metadata.bank_transfer_next_steps {
            Some(steps) => Ok(Some(steps.clone())),
            None => Ok(None),
        },
        None => Ok(None),
    }
}

/// Voucher instructions of an attempt, if its metadata hold any.
pub open spec fn voucher_next_steps(attempt: PaymentAttempt) -> Option<VoucherNextStepData> {
    match attempt.connector_metadata {
        Some(metadata) => metadata.voucher_next_steps,
        None => None,
    }
}

/// Never fails: metadata of another shape mean that there is no voucher.
pub fn voucher_next_steps_check(payment_attempt: &PaymentAttempt) -> (r: RouterResult<
    Option<VoucherNextStepData>,
>)
    ensures
        r == Ok::<_, ApiErrorResponse>(voucher_next_steps(*payment_attempt)),
{
    match &payment_attempt.connector_metadata {
        Some(metadata) => match &metadata.voucher_next_steps {
            Some(steps) => Ok(Some(steps.clone())),
            None => Ok(None),
        },
        None => Ok(None),
    }
}

/// QR-code details of an attempt, if its metadata holds any.
pub open spec fn qr_code_next_steps(attempt: PaymentAttempt) -> Option<QrCodeInformation> {
    match attempt.connector_metadata {
        Some(metadata) => metadata.qr_code,
        None => None,
    }
}

/// Never fails: metadata of another shape mean that there is no QR code.
pub fn qr_code_next_steps_check(payment_attempt: &PaymentAttempt) -> (r: RouterResult<
    Option<QrCodeInformation>,
>)
    ensures
        r == Ok::<_, ApiErrorResponse>(qr_code_next_steps(*payment_attempt)),
{
    match &payment_attempt.connector_metadata {
        Some(metadata) => match &metadata.qr_code {
            Some(qr) => Ok(Some(qr.clone())),
            None => Ok(None),
        },
        None => Ok(None),
    }
}

/// SDK instructions of an attempt, if its metadata holds any.
pub open spec fn paypal_sdk_next_steps(attempt: PaymentAttempt) -> Option<SdkNextActionData> {
    match attempt.connector_metadata {
        Some(metadata) => metadata.sdk_next_action,
        None => None,
    }
}

/// Never fails: metadata of another shape mean that no SDK call is due.
pub fn paypal_sdk_next_steps_check(payment_attempt: &PaymentAttempt) -> (r: RouterResult<
    Option<SdkNextActionData>,
>)
    ensures
        r == Ok::<_, ApiErrorResponse>(paypal_sdk_next_steps(*payment_attempt)),
{
    match &payment_attempt.connector_metadata {
        Some(metadata) => Ok(metadata.sdk_next_action),
        None => Ok(None),
    }
}

/// Where to fetch a QR code for an attempt, if its metadata says.
pub open spec fn fetch_qr_code_url_next_steps(attempt: PaymentAttempt) -> Option<
    FetchQrCodeInformation,
> {
    match attempt.connector_metadata {
        Some(metadata) => metadata.fetch_qr_code,
        None => None,
    }
}

/// Never fails: metadata of another shape mean that there is nothing to fetch.
pub fn fetch_qr_code_url_next_steps_check(payment_attempt: &PaymentAttempt) -> (r: RouterResult<
    Option<FetchQrCodeInformation>,
>)
    ensures
        r == Ok::<_, ApiErrorResponse>(fetch_qr_code_url_next_steps(*payment_attempt)),
{
    match &payment_attempt.connector_metadata {
        Some(metadata) => match &metadata.fetch_qr_code {
            Some(info) => Ok(Some(info.clone())),
            None => Ok(None),
        },
        None => Ok(None),
    }
}

/// Wait-screen timing of an attempt, if its metadata holds any.
pub open spec fn wait_screen_next_steps(attempt: PaymentAttempt) -> Option<WaitScreenInstructions> {
    match attempt.connector_metadata {
        Some(metadata) => metadata.wait_screen,
        None => None,
    }
}

/// Never fails: metadata of another shape mean that no wait screen is due.
pub fn wait_screen_next_steps_check(payment_attempt: &PaymentAttempt) -> (r: RouterResult<
    Option<WaitScreenInstructions>,
>)
    ensures
        r == Ok::<_, ApiErrorResponse>(wait_screen_next_steps(*payment_attempt)),
{
    match &payment_attempt.connector_metadata {
        Some(metadata) => Ok(metadata.wait_screen),
        None => Ok(None),
    }
}

/// Whether a confirm is answered with a session token for a third-party
/// SDK: wallets through Trustpay or Payme, open banking payment initiation
/// through Plaid.
pub open spec fn third_party_sdk_session(attempt: PaymentAttempt, operation: Operation) -> bool {
    &&& operation == Operation::PaymentConfirm
    &&& attempt.connector is Some
    &&& {
        let connector = attempt.connector->Some_0@;
        ||| (connector == "trustpay"@ || connector == "payme"@) && attempt.payment_method == Some(
            PaymentMethod::Wallet,
        )
        ||| connector == "plaid"@ && attempt.payment_method == Some(PaymentMethod::OpenBanking)
            && attempt.payment_method_type == Some(PaymentMethodType::OpenBankingPIS)
    }
}

/// Tells whether a confirm is answered with a session token for a third-party SDK.
pub fn third_party_sdk_session_next_action(
    payment_attempt: &PaymentAttempt,
    operation: &Operation,
) -> (r: bool)
    ensures
        r == third_party_sdk_session(*payment_attempt, *operation),
{
    if operation.is_confirm() {
        match &payment_attempt.connector {
            Some(connector) => {
                let is_wallet = match payment_attempt.payment_method {
                    Some(PaymentMethod::Wallet) => true,
                    _ => false,
                };
                let is_open_banking = match payment_attempt.payment_method {
                    Some(PaymentMethod::OpenBanking) => true,
                    _ => false,
                };
                let is_payment_initiation = match payment_attempt.payment_method_type {
                    Some(PaymentMethodType::OpenBankingPIS) => true,
                    _ => false,
                };
                let condition1 = (str_eq(connector.as_str(), "trustpay") || str_eq(
                    connector.as_str(),
                    "payme",
                )) && is_wallet;
                let condition2 = str_eq(connector.as_str(), "plaid") && is_open_banking
                    && is_payment_initiation;
                condition1 || condition2
            },
            None => false,
        }
    } else {
        false
    }
}

impl NextActionData {
    /// The QR-code step that shows `qr_info`.
    pub open spec fn from_qr_code(qr_info: QrCodeInformation) -> NextActionData {
        match qr_info {
            QrCodeInformation::QrCodeUrl { image_data_url, qr_code_url, display_to_timestamp } => {
                NextActionData::QrCodeInformation {
                    image_data_url: Some(image_data_url),
                    qr_code_url: Some(qr_code_url),
                    display_to_timestamp,
                }
            },
            QrCodeInformation::QrDataUrl { image_data_url, display_to_timestamp } => {
                NextActionData::QrCodeInformation {
                    image_data_url: Some(image_data_url),
                    display_to_timestamp,
                    qr_code_url: None,
                }
            },
            QrCodeInformation::QrCodeImageUrl { qr_code_url, display_to_timestamp } => {
                NextActionData::QrCodeInformation {
                    qr_code_url: Some(qr_code_url),
                    image_data_url: None,
                    display_to_timestamp,
                }
            },
        }
    }

    /// The QR-code step that shows `qr_info`.
    pub fn foreign_from(qr_info: QrCodeInformation) -> (r: Self)
        ensures
            r == Self::from_qr_code(qr_info),
    {
        match qr_info {
            QrCodeInformation::QrCodeUrl { image_data_url, qr_code_url, display_to_timestamp } => {
                NextActionData::QrCodeInformation {
                    image_data_url: Some(image_data_url),
                    qr_code_url: Some(qr_code_url),
                    display_to_timestamp,
                }
            },
            QrCodeInformation::QrDataUrl { image_data_url, display_to_timestamp } => {
                NextActionData::QrCodeInformation {
                    image_data_url: Some(image_data_url),
                    display_to_timestamp,
                    qr_code_url: None,
                }
            },
            QrCodeInformation::QrCodeImageUrl { qr_code_url, display_to_timestamp } => {
                NextActionData::QrCodeInformation {
                    qr_code_url: Some(qr_code_url),
                    image_data_url: None,
                    display_to_timestamp,
                }
            },
        }
    }
}

impl Authentication {
    /// Whether the authentication runs apart from the payment: under 3-D Secure 2.
    pub open spec fn is_separate_authn_required_spec(&self) -> bool {
        self.maximum_supported_version is Some && self.maximum_supported_version->Some_0.major == 2
    }

    /// Whether the authentication runs apart from the payment.
    pub fn is_separate_authn_required(&self) -> (r: bool)
        ensures
            r == self.is_separate_authn_required_spec(),
    {
        match self.maximum_supported_version {
            Some(version) => version.major == 2,
            None => false,
        }
    }
}

/// The kinds of step a client can be asked to take.
#[derive(Clone, Copy, Debug, PartialEq, Eq, Structural)]
pub enum NextActionKind {
    DisplayBankTransferInformation,
    DisplayVoucherInformation,
    QrCodeInformation,
    FetchQrCodeInformation,
    InvokeSdkClient,
    WaitScreenInformation,
    RedirectToUrl,
    ThreeDsInvoke,
    ThirdPartySdkSessionToken,
}

/// What the decision of the next step depends on.
#[derive(Clone, Copy, Debug, PartialEq, Eq, Structural)]
pub struct NextActionSignals {
    /// The intent waits for the customer.
    pub requires_customer_action: bool,
    pub bank_transfer: bool,
    pub voucher: bool,
    pub qr_code: bool,
    pub fetch_qr_code: bool,
    pub paypal_sdk: bool,
    pub wait_screen: bool,
    /// The attempt carries redirect data.
    pub authentication_data: bool,
    /// An external authentication record exists.
    pub authentication: bool,
    /// That record has no authentication value (CAVV) yet.
    pub cavv_missing: bool,
    /// That record asks for an authentication apart from the payment.
    pub separate_authn_required: bool,
    /// A confirm through a connector that hands out third-party SDK sessions.
    pub third_party_sdk_session: bool,
}

impl NextActionSignals {
    /// Whether any step is looked for at all.
    pub open spec fn any_step_possible(self) -> bool {
        self.requires_customer_action || self.bank_transfer || self.voucher || self.qr_code
            || self.wait_screen || self.paypal_sdk || self.fetch_qr_code || self.authentication
    }

    /// Whether a 3-D Secure challenge is still to be made.
    pub open spec fn three_ds_due(self) -> bool {
        self.authentication && self.requires_customer_action && self.cavv_missing
            && self.separate_authn_required
    }
}

/// The step that the records of the payment resolve to: where any step is
/// possible, the first present of bank transfer, voucher, QR code, QR
/// code to fetch, SDK call, wait screen, redirect and 3-D Secure challenge.
pub open spec fn resolved_next_action(signals: NextActionSignals) -> Option<NextActionKind> {
    if !signals.any_step_possible() {
        None
    } else if signals.bank_transfer {
        Some(NextActionKind::DisplayBankTransferInformation)
    } else if signals.voucher {
        Some(NextActionKind::DisplayVoucherInformation)
    } else if signals.qr_code {
        Some(NextActionKind::QrCodeInformation)
    } else if signals.fetch_qr_code {
        Some(NextActionKind::FetchQrCodeInformation)
    } else if signals.paypal_sdk {
        Some(NextActionKind::InvokeSdkClient)
    } else if signals.wait_screen {
        Some(NextActionKind::WaitScreenInformation)
    } else if signals.authentication_data {
        Some(NextActionKind::RedirectToUrl)
    } else if signals.three_ds_due() {
        Some(NextActionKind::ThreeDsInvoke)
    } else {
        None
    }
}

/// The step that is due: a third-party SDK session overrides whatever the
/// records resolve to.
pub open spec fn decided_next_action(signals: NextActionSignals) -> Option<NextActionKind> {
    if signals.third_party_sdk_session {
        Some(NextActionKind::ThirdPartySdkSessionToken)
    } else {
        resolved_next_action(signals)
    }
}

/// Resolves the step that the records of the payment call for, by precedence.
pub fn resolve_next_action(signals: &NextActionSignals) -> (r: Option<NextActionKind>)
    ensures
        r == resolved_next_action(*signals),
{
    let any_step_possible = signals.requires_customer_action || signals.bank_transfer
        || signals.voucher || signals.qr_code || signals.wait_screen || signals.paypal_sdk
        || signals.fetch_qr_code || signals.authentication;
    if !any_step_possible {
        None
    } else if signals.bank_transfer {
        Some(NextActionKind::DisplayBankTransferInformation)
    } else if signals.voucher {
        Some(NextActionKind::DisplayVoucherInformation)
    } else if signals.qr_code {
        Some(NextActionKind::QrCodeInformation)
    } else if signals.fetch_qr_code {
        Some(NextActionKind::FetchQrCodeInformation)
    } else if signals.paypal_sdk {
        Some(NextActionKind::InvokeSdkClient)
    } else if signals.wait_screen {
        Some(NextActionKind::WaitScreenInformation)
    } else if signals.authentication_data {
        Some(NextActionKind::RedirectToUrl)
    } else if signals.authentication && signals.requires_customer_action && signals.cavv_missing
        && signals.separate_authn_required {
        Some(NextActionKind::ThreeDsInvoke)
    } else {
        None
    }
}

/// Decides which step, if any, the client is asked to take.
pub fn decide_next_action(signals: &NextActionSignals) -> (r: Option<NextActionKind>)
    ensures
        r == decided_next_action(*signals),
{
    if signals.third_party_sdk_session {
        Some(NextActionKind::ThirdPartySdkSessionToken)
    } else {
        resolve_next_action(signals)
    }
}

/// Bank-transfer instructions outrank voucher instructions: where both
/// are present, the payment resolves to the bank transfer.
pub proof fn bank_transfer_outranks_voucher(signals: NextActionSignals)
    requires
        signals.bank_transfer,
        signals.voucher,
    ensures
        resolved_next_action(signals) == Some(NextActionKind::DisplayBankTransferInformation),
        !signals.third_party_sdk_session ==> decided_next_action(signals) == Some(
            NextActionKind::DisplayBankTransferInformation,
        ),
{
}

/// Once an authentication value (CAVV) is set, no 3-D Secure challenge is asked for.
pub proof fn no_challenge_once_authenticated(signals: NextActionSignals)
    requires
        !signals.cavv_missing,
    ensures
        resolved_next_action(signals) != Some(NextActionKind::ThreeDsInvoke),
        decided_next_action(signals) != Some(NextActionKind::ThreeDsInvoke),
{
}

/// What decides the next step of a payment, as read from its records.
pub open spec fn signals_of(
    attempt: PaymentAttempt,
    intent: PaymentIntent,
    authentication: Option<Authentication>,
    operation: Operation,
) -> NextActionSignals {
    NextActionSignals {
        requires_customer_action: intent.status == IntentStatus::RequiresCustomerAction,
        bank_transfer: bank_transfer_next_steps(attempt) is Some,
        voucher: voucher_next_steps(attempt) is Some,
        qr_code: qr_code_next_steps(attempt) is Some,
        fetch_qr_code: fetch_qr_code_url_next_steps(attempt) is Some,
        paypal_sdk: paypal_sdk_next_steps(attempt) is Some,
        wait_screen: wait_screen_next_steps(attempt) is Some,
        authentication_data: attempt.authentication_data is Some,
        authentication: authentication is Some,
        cavv_missing: authentication is Some && authentication->Some_0.cavv is None,
        separate_authn_required: authentication is Some
            && authentication->Some_0.is_separate_authn_required_spec(),
        third_party_sdk_session: third_party_sdk_session(attempt, operation),
    }
}

/// Why no next step can be worked out: the step that is due is a 3-D
/// Secure challenge, and the attempt has no connector to build its URLs
/// for. A challenge that a step of higher precedence keeps from being
/// reached asks for no connector.
pub open spec fn next_action_failure(
    attempt: PaymentAttempt,
    intent: PaymentIntent,
    authentication: Option<Authentication>,
    operation: Operation,
) -> Option<ApiErrorResponse> {
    let signals = signals_of(attempt, intent, authentication, operation);
    if decided_next_action(signals) == Some(NextActionKind::ThreeDsInvoke) && attempt.connector
        is None {
        Some(ApiErrorResponse::MissingRequiredField { field_name: "connector" })
    } else {
        None
    }
}

/// The method-URL details of a challenge: submitted when both the URL and the data are known.
pub open spec fn three_ds_method_details(authentication: Authentication) -> ThreeDsMethodData {
    if authentication.three_ds_method_url is Some && authentication.three_ds_method_data is Some {
        ThreeDsMethodData::AcsThreeDsMethodData {
            three_ds_method_data_submission: true,
            three_ds_method_data: authentication.three_ds_method_data,
            three_ds_method_url: authentication.three_ds_method_url,
        }
    } else {
        ThreeDsMethodData::AcsThreeDsMethodData {
            three_ds_method_data_submission: false,
            three_ds_method_data: None,
            three_ds_method_url: None,
        }
    }
}

/// The polling in force: the configured one, else the default.
pub open spec fn polling(poll_config: Option<PollConfig>) -> PollConfig {
    match poll_config {
        Some(config) => config,
        None => PollConfig { delay_in_secs: 2, frequency: 5 },
    }
}

/// Whether `data` is the 3-D Secure challenge of the payment.
pub open spec fn is_three_ds_data(
    data: ThreeDsData,
    attempt: PaymentAttempt,
    intent: PaymentIntent,
    authentication: Authentication,
    poll_config: Option<PollConfig>,
    base_url: Seq<char>,
) -> bool {
    &&& attempt.connector is Some
    &&& data.three_ds_authentication_url@ == authentication_url(base_url, attempt.payment_id@)
    &&& data.three_ds_authorize_url@ == authorize_url(
        base_url,
        attempt.payment_id@,
        attempt.merchant_id@,
        attempt.connector->Some_0@,
    )
    &&& data.three_ds_method_details == three_ds_method_details(authentication)
    &&& data.poll_config.poll_id@ == authentication_poll_id(intent.payment_id@)
    &&& data.poll_config.delay_in_secs == polling(poll_config).delay_in_secs
    &&& data.poll_config.frequency == polling(poll_config).frequency
    &&& data.message_version == authentication.message_version
    &&& data.directory_server_id == authentication.directory_server_id
}

/// The first session token, if there is one.
pub open spec fn first_session_token(tokens: Seq<SessionToken>) -> Option<SessionToken> {
    if tokens.len() > 0 {
        Some(tokens[0])
    } else {
        None
    }
}

/// Whether `action` is the next step of the payment: of the decided kind,
/// and carrying what the records hold for that kind.
pub open spec fn is_next_action(
    action: Option<NextActionData>,
    attempt: PaymentAttempt,
    intent: PaymentIntent,
    authentication: Option<Authentication>,
    poll_config: Option<PollConfig>,
    sessions_token: Seq<SessionToken>,
    base_url: Seq<char>,
    operation: Operation,
) -> bool {
    match decided_next_action(signals_of(attempt, intent, authentication, operation)) {
        None => action is None,
        Some(NextActionKind::ThirdPartySdkSessionToken) => action == Some(
            NextActionData::ThirdPartySdkSessionToken {
                session_token: first_session_token(sessions_token),
            },
        ),
        Some(NextActionKind::DisplayBankTransferInformation) => action == Some(
            NextActionData::DisplayBankTransferInformation {
                bank_transfer_steps_and_charges_details: bank_transfer_next_steps(
                    attempt,
                )->Some_0,
            },
        ),
        Some(NextActionKind::DisplayVoucherInformation) => action == Some(
            NextActionData::DisplayVoucherInformation {
                voucher_details: voucher_next_steps(attempt)->Some_0,
            },
        ),
        Some(NextActionKind::QrCodeInformation) => action == Some(
            NextActionData::from_qr_code(qr_code_next_steps(attempt)->Some_0),
        ),
        Some(NextActionKind::FetchQrCodeInformation) => action == Some(
            NextActionData::FetchQrCodeInformation {
                qr_code_fetch_url: fetch_qr_code_url_next_steps(attempt)->Some_0.qr_code_fetch_url,
            },
        ),
        Some(NextActionKind::InvokeSdkClient) => action == Some(
            NextActionData::InvokeSdkClient {
                next_action_data: paypal_sdk_next_steps(attempt)->Some_0,
            },
        ),
        Some(NextActionKind::WaitScreenInformation) => action == Some(
            NextActionData::WaitScreenInformation {
                display_from_timestamp: wait_screen_next_steps(
                    attempt,
                )->Some_0.display_from_timestamp,
                display_to_timestamp: wait_screen_next_steps(attempt)->Some_0.display_to_timestamp,
            },
        ),
        Some(NextActionKind::RedirectToUrl) => {
            &&& action matches Some(NextActionData::RedirectToUrl { redirect_to_url })
            &&& redirect_to_url@ == startpay_url(
                base_url,
                intent.payment_id@,
                intent.merchant_id@,
                attempt.attempt_id@,
            )
        },
        Some(NextActionKind::ThreeDsInvoke) => {
            &&& authentication is Some
            &&& action matches Some(NextActionData::ThreeDsInvoke { three_ds_data })
            &&& is_three_ds_data(
                three_ds_data,
                attempt,
                intent,
                authentication->Some_0,
                poll_config,
                base_url,
            )
        },
    }
}

fn three_ds_challenge(
    payment_attempt: &PaymentAttempt,
    payment_intent: &PaymentIntent,
    authentication: &Authentication,
    connector: &String,
    poll_config: Option<PollConfig>,
    base_url: &str,
) -> (r: ThreeDsData)
    requires
        payment_attempt.connector == Some(*connector),
    ensures
        is_three_ds_data(
            r,
            *payment_attempt,
            *payment_intent,
            *authentication,
            poll_config,
            base_url@,
        ),
{
    let method_details = match (
        &authentication.three_ds_method_url,
        &authentication.three_ds_method_data,
    ) {
        (Some(url), Some(data)) => ThreeDsMethodData::AcsThreeDsMethodData {
            three_ds_method_data_submission: true,
            three_ds_method_data: Some(data.clone()),
            three_ds_method_url: Some(url.clone()),
        },
        _ => ThreeDsMethodData::AcsThreeDsMethodData {
            three_ds_method_data_submission: false,
            three_ds_method_data: None,
            three_ds_method_url: None,
        },
    };
    let config = match poll_config {
        Some(config) => config,
        None => PollConfig::default_config(),
    };
    ThreeDsData {
        three_ds_authentication_url: create_authentication_url(base_url, payment_attempt),
        three_ds_authorize_url: create_authorize_url(base_url, payment_attempt, connector.as_str()),
        three_ds_method_details: method_details,
        poll_config: PollConfigResponse {
            poll_id: get_external_authentication_request_poll_id(
                payment_intent.payment_id.as_str(),
            ),
            delay_in_secs: config.delay_in_secs,
            frequency: config.frequency,
        },
        message_version: clone_opt_string(&authentication.message_version),
        directory_server_id: clone_opt_string(&authentication.directory_server_id),
    }
}

/// Works out the one next step of a payment, if any is due.
pub fn next_action_response(
    payment_attempt: &PaymentAttempt,
    payment_intent: &PaymentIntent,
    authentication: &Option<Authentication>,
    poll_config: Option<PollConfig>,
    sessions_token: &Vec<SessionToken>,
    base_url: &str,
    operation: &Operation,
) -> (r: RouterResult<Option<NextActionData>>)
    ensures
        match r {
            Ok(action) => next_action_failure(
                *payment_attempt,
                *payment_intent,
                *authentication,
                *operation,
            ) is None && is_next_action(
                action,
                *payment_attempt,
                *payment_intent,
                *authentication,
                poll_config,
                sessions_token@,
                base_url@,
                *operation,
            ),
            Err(e) => next_action_failure(
                *payment_attempt,
                *payment_intent,
                *authentication,
                *operation,
            ) == Some(e),
        },
{
    let bank_transfer_next_steps = bank_transfer_next_steps_check(payment_attempt)?;
    let next_action_voucher = voucher_next_steps_check(payment_attempt)?;
    let next_action_containing_qr_code_url = qr_code_next_steps_check(payment_attempt)?;
    let paypal_sdk_next_action = paypal_sdk_next_steps_check(payment_attempt)?;
    let next_action_containing_fetch_qr_code_url = fetch_qr_code_url_next_steps_check(
        payment_attempt,
    )?;
    let next_action_containing_wait_screen = wait_screen_next_steps_check(payment_attempt)?;

    let signals = NextActionSignals {
        requires_customer_action: matches!(
            payment_intent.status,
            IntentStatus::RequiresCustomerAction
        ),
        bank_transfer: bank_transfer_next_steps.is_some(),
        voucher: next_action_voucher.is_some(),
        qr_code: next_action_containing_qr_code_url.is_some(),
        fetch_qr_code: next_action_containing_fetch_qr_code_url.is_some(),
        paypal_sdk: paypal_sdk_next_action.is_some(),
        wait_screen: next_action_containing_wait_screen.is_some(),
        authentication_data: payment_attempt.authentication_data.is_some(),
        authentication: authentication.is_some(),
        cavv_missing: match authentication {
            Some(a) => a.cavv.is_none(),
            None => false,
        },
        separate_authn_required: match authentication {
            Some(a) => a.is_separate_authn_required(),
            None => false,
        },
        third_party_sdk_session: third_party_sdk_session_next_action(payment_attempt, operation),
    };

    let action = match decide_next_action(&signals) {
        None => None,
        Some(NextActionKind::ThirdPartySdkSessionToken) => {
            let session_token = if sessions_token.len() > 0 {
                Some(sessions_token[0].clone())
            } else {
                None
            };
            Some(NextActionData::ThirdPartySdkSessionToken { session_token })
        },
        Some(NextActionKind::DisplayBankTransferInformation) => match bank_transfer_next_steps {
            Some(bank_transfer) => Some(
                NextActionData::DisplayBankTransferInformation {
                    bank_transfer_steps_and_charges_details: bank_transfer,
                },
            ),
            None => None,
        },
        Some(NextActionKind::DisplayVoucherInformation) => match next_action_voucher {
            Some(voucher_data) => Some(
                NextActionData::DisplayVoucherInformation { voucher_details: voucher_data },
            ),
            None => None,
        },
        Some(NextActionKind::QrCodeInformation) => match next_action_containing_qr_code_url {
            Some(qr_code_data) => Some(NextActionData::foreign_from(qr_code_data)),
            None => None,
        },
        Some(NextActionKind::FetchQrCodeInformation) => {
            match next_action_containing_fetch_qr_code_url {
                Some(fetch_qr_code_data) => Some(
                    NextActionData::FetchQrCodeInformation {
                        qr_code_fetch_url: fetch_qr_code_data.qr_code_fetch_url,
                    },
                ),
                None => None,
            }
        },
        Some(NextActionKind::InvokeSdkClient) => match paypal_sdk_next_action {
            Some(paypal_next_action_data) => Some(
                NextActionData::InvokeSdkClient { next_action_data: paypal_next_action_data },
            ),
            None => None,
        },
        Some(NextActionKind::WaitScreenInformation) => match next_action_containing_wait_screen {
            Some(wait_screen_data) => Some(
                NextActionData::WaitScreenInformation {
                    display_from_timestamp: wait_screen_data.display_from_timestamp,
                    display_to_timestamp: wait_screen_data.display_to_timestamp,
                },
            ),
            None => None,
        },
        Some(NextActionKind::RedirectToUrl) => Some(
            NextActionData::RedirectToUrl {
                redirect_to_url: create_startpay_url(base_url, payment_attempt, payment_intent),
            },
        ),
        Some(NextActionKind::ThreeDsInvoke) => match (authentication, &payment_attempt.connector) {
            (Some(a), Some(connector)) => Some(
                NextActionData::ThreeDsInvoke {
                    three_ds_data: three_ds_challenge(
                        payment_attempt,
                        payment_intent,
                        a,
                        connector,
                        poll_config,
                        base_url,
                    ),
                },
            ),
            (_, None) => {
                return Err(ApiErrorResponse::MissingRequiredField { field_name: "connector" });
            },
            (None, Some(_)) => None,
        },
    };
    Ok(action)
}

/// Metadata that read both as bank-transfer and as voucher instructions
/// show the bank transfer, whatever the attempt pays with: the payment
/// resolves to the bank-transfer instructions, no next step fails, and
/// the instructions are the next step unless a third-party SDK session
/// overrides them.
pub proof fn metadata_read_both_ways_show_the_bank_transfer(
    attempt: PaymentAttempt,
    intent: PaymentIntent,
    authentication: Option<Authentication>,
    operation: Operation,
)
    requires
        attempt.connector_metadata is Some,
        attempt.connector_metadata->Some_0.bank_transfer_next_steps is Some,
        attempt.connector_metadata->Some_0.voucher_next_steps is Some,
    ensures
        next_action_failure(attempt, intent, authentication, operation) is None,
        resolved_next_action(signals_of(attempt, intent, authentication, operation)) == Some(
            NextActionKind::DisplayBankTransferInformation,
        ),
        !third_party_sdk_session(attempt, operation) ==> decided_next_action(
            signals_of(attempt, intent, authentication, operation),
        ) == Some(NextActionKind::DisplayBankTransferInformation),
{
}

/// A step of higher precedence keeps a 3-D Secure challenge from being
/// reached, and with it the need for a connector: where any of the steps
/// read from the metadata, or a redirect, is present, working out the next
/// step does not fail.
pub proof fn earlier_step_needs_no_connector(
    attempt: PaymentAttempt,
    intent: PaymentIntent,
    authentication: Option<Authentication>,
    operation: Operation,
)
    requires
        ({
            let signals = signals_of(attempt, intent, authentication, operation);
            signals.bank_transfer || signals.voucher || signals.qr_code || signals.fetch_qr_code
                || signals.paypal_sdk || signals.wait_screen || signals.authentication_data
                || signals.third_party_sdk_session
        }),
    ensures
        next_action_failure(attempt, intent, authentication, operation) is None,
{
}

/// A payment whose authentication record has its authentication value
/// (CAVV) set is never answered with a 3-D Secure challenge, whatever
/// state its intent is in.
pub proof fn authenticated_payment_is_not_challenged(
    attempt: PaymentAttempt,
    intent: PaymentIntent,
    authentication: Authentication,
    operation: Operation,
)
    requires
        authentication.cavv is Some,
    ensures
        decided_next_action(signals_of(attempt, intent, Some(authentication), operation)) != Some(
            NextActionKind::ThreeDsInvoke,
        ),
        next_action_failure(attempt, intent, Some(authentication), operation) != Some(
            ApiErrorResponse::MissingRequiredField { field_name: "connector" },
        ),
{
}

} // verus!
