//! Callback URLs, reference identifiers and retry policy of a payment.

use vstd::prelude::*;
use vstd::string::*;

use crate::domain::MerchantConnectorAccountType;
use crate::enums::{ApplePayFlow, AttemptStatus, IntentStatus, PaymentMethodType};
use crate::storage::{PaymentAttempt, PaymentIntent};
use crate::text::str_eq;
use crate::types::ConnectorRequestReferenceIdConfig;

verus! {

/// `{base}/payments/redirect/{payment}/{merchant}/{attempt}`.
pub open spec fn startpay_url(
    base: Seq<char>,
    payment_id: Seq<char>,
    merchant_id: Seq<char>,
    attempt_id: Seq<char>,
) -> Seq<char> {
    base + "/payments/redirect/"@ + payment_id + "/"@ + merchant_id + "/"@ + attempt_id
}

/// The URL at which a customer resumes a payment after a redirect.
pub fn create_startpay_url(
    base_url: &str,
    payment_attempt: &PaymentAttempt,
    payment_intent: &PaymentIntent,
) -> (r: String)
    ensures
        r@ == startpay_url(
            base_url@,
            payment_intent.payment_id@,
            payment_intent.merchant_id@,
            payment_attempt.attempt_id@,
        ),
{
    let mut url = String::from_str(base_url);
    url.append("/payments/redirect/");
    url.append(payment_intent.payment_id.as_str());
    url.append("/");
    url.append(payment_intent.merchant_id.as_str());
    url.append("/");
    url.append(payment_attempt.attempt_id.as_str());
    url
}

/// `{base}/payments/{payment}/{merchant}/redirect/response/{connector}`,
/// followed by `/{creds}` where a credentials identifier is given.
pub open spec fn redirect_url(
    base: Seq<char>,
    payment_id: Seq<char>,
    merchant_id: Seq<char>,
    connector: Seq<char>,
    creds_identifier: Option<Seq<char>>,
) -> Seq<char> {
    let url = base + "/payments/"@ + payment_id + "/"@ + merchant_id + "/redirect/response/"@
        + connector;
    match creds_identifier {
        Some(creds) => url + "/"@ + creds,
        None => url,
    }
}

/// The URL to which a connector sends the customer back.
pub fn create_redirect_url(
    router_base_url: &str,
    payment_attempt: &PaymentAttempt,
    connector_name: &str,
    creds_identifier: Option<&str>,
) -> (r: String)
    ensures
        r@ == redirect_url(
            router_base_url@,
            payment_attempt.payment_id@,
            payment_attempt.merchant_id@,
            connector_name@,
            match creds_identifier {
                Some(c) => Some(c@),
                None => None,
            },
        ),
{
    let mut url = String::from_str(router_base_url);
    url.append("/payments/");
    url.append(payment_attempt.payment_id.as_str());
    url.append("/");
    url.append(payment_attempt.merchant_id.as_str());
    url.append("/redirect/response/");
    url.append(connector_name);
    match creds_identifier {
        Some(creds) => {
            url.append("/");
            url.append(creds);
        },
        None => {},
    }
    url
}

/// `{base}/payments/{payment}/3ds/authentication`.
pub open spec fn authentication_url(base: Seq<char>, payment_id: Seq<char>) -> Seq<char> {
    base + "/payments/"@ + payment_id + "/3ds/authentication"@
}

/// The URL at which a client starts a 3-D Secure authentication.
pub fn create_authentication_url(base_url: &str, payment_attempt: &PaymentAttempt) -> (r: String)
    ensures
        r@ == authentication_url(base_url@, payment_attempt.payment_id@),
{
    let mut url = String::from_str(base_url);
    url.append("/payments/");
    url.append(payment_attempt.payment_id.as_str());
    url.append("/3ds/authentication");
    url
}

/// `{base}/payments/{payment}/{merchant}/authorize/{connector}`.
pub open spec fn authorize_url(
    base: Seq<char>,
    payment_id: Seq<char>,
    merchant_id: Seq<char>,
    connector: Seq<char>,
) -> Seq<char> {
    base + "/payments/"@ + payment_id + "/"@ + merchant_id + "/authorize/"@ + connector
}

/// The URL at which a client authorises a payment after authentication.
pub fn create_authorize_url(
    base_url: &str,
    payment_attempt: &PaymentAttempt,
    connector_name: &str,
) -> (r: String)
    ensures
        r@ == authorize_url(
            base_url@,
            payment_attempt.payment_id@,
            payment_attempt.merchant_id@,
            connector_name@,
        ),
{
    let mut url = String::from_str(base_url);
    url.append("/payments/");
    url.append(payment_attempt.payment_id.as_str());
    url.append("/");
    url.append(payment_attempt.merchant_id.as_str());
    url.append("/authorize/");
    url.append(connector_name);
    url
}

/// `{base}/webhooks/{merchant}/{connector}`.
pub open spec fn webhook_url(base: Seq<char>, merchant_id: Seq<char>, connector: Seq<char>) -> Seq<
    char,
> {
    base + "/webhooks/"@ + merchant_id + "/"@ + connector
}

/// The URL at which a connector's webhooks for a merchant arrive.
pub fn create_webhook_url(router_base_url: &str, merchant_id: &str, connector_name: &str) -> (r:
    String)
    ensures
        r@ == webhook_url(router_base_url@, merchant_id@, connector_name@),
{
    let mut url = String::from_str(router_base_url);
    url.append("/webhooks/");
    url.append(merchant_id);
    url.append("/");
    url.append(connector_name);
    url
}

/// `{base}/payments/{payment}/{merchant}/redirect/complete/{connector}`.
pub open spec fn complete_authorize_url(
    base: Seq<char>,
    payment_id: Seq<char>,
    merchant_id: Seq<char>,
    connector: Seq<char>,
) -> Seq<char> {
    base + "/payments/"@ + payment_id + "/"@ + merchant_id + "/redirect/complete/"@ + connector
}

/// The URL at which a redirected payment completes its authorisation.
pub fn create_complete_authorize_url(
    router_base_url: &str,
    payment_attempt: &PaymentAttempt,
    connector_name: &str,
) -> (r: String)
    ensures
        r@ == complete_authorize_url(
            router_base_url@,
            payment_attempt.payment_id@,
            payment_attempt.merchant_id@,
            connector_name@,
        ),
{
    let mut url = String::from_str(router_base_url);
    url.append("/payments/");
    url.append(payment_attempt.payment_id.as_str());
    url.append("/");
    url.append(payment_attempt.merchant_id.as_str());
    url.append("/redirect/complete/");
    url.append(connector_name);
    url
}

/// `external_authentication_{payment}`.
pub open spec fn authentication_poll_id(payment_id: Seq<char>) -> Seq<char> {
    "external_authentication_"@ + payment_id
}

/// The identifier under which a client polls for an authentication result.
pub fn get_external_authentication_request_poll_id(payment_id: &str) -> (r: String)
    ensures
        r@ == authentication_poll_id(payment_id@),
{
    let mut id = String::from_str("external_authentication_");
    id.append(payment_id);
    id
}

/// Whether `list` holds the text `item`.
pub open spec fn holds_text(list: Seq<String>, item: Seq<char>) -> bool {
    exists|i: int| 0 <= i < list.len() && #[trigger] list[i]@ == item
}

/// Whether `list` holds the text `item`.
pub fn contains_text(list: &Vec<String>, item: &str) -> (r: bool)
    ensures
        r == holds_text(list@, item@),
{
    let mut i: usize = 0;
    while i < list.len()
        invariant
            i <= list.len(),
            forall|j: int| 0 <= j < i ==> (#[trigger] list@[j])@ != item@,
        decreases list.len() - i,
    {
        if str_eq(list[i].as_str(), item) {
            return true;
        }
        i += 1;
    }
    false
}

/// Whether the merchant sends the payment id as the reference to connectors.
pub open spec fn sends_payment_id(config: ConnectorRequestReferenceIdConfig, merchant_id: Seq<char>) -> bool {
    holds_text(config.merchant_ids_send_payment_id_as_connector_request_id@, merchant_id)
}

/// The reference under which a connector knows the attempt: the payment id
/// for the merchants configured so, the attempt id for all others.
pub fn get_connector_request_reference_id(
    config: &ConnectorRequestReferenceIdConfig,
    merchant_id: &str,
    payment_attempt: &PaymentAttempt,
) -> (r: String)
    ensures
        r == if sends_payment_id(*config, merchant_id@) {
            payment_attempt.payment_id
        } else {
            payment_attempt.attempt_id
        },
{
    if contains_text(&config.merchant_ids_send_payment_id_as_connector_request_id, merchant_id) {
        payment_attempt.payment_id.clone()
    } else {
        payment_attempt.attempt_id.clone()
    }
}

/// `{connector}_{country}_{label}`, followed by `_{sub_label}` where one is
/// given; nothing without both a business country and a business label.
pub open spec fn connector_label(
    business_country: Option<String>,
    business_label: Option<String>,
    business_sub_label: Option<String>,
    connector_name: Seq<char>,
) -> Option<Seq<char>> {
    if business_country is Some && business_label is Some {
        let label = connector_name + "_"@ + business_country->Some_0@ + "_"@
            + business_label->Some_0@;
        match business_sub_label {
            Some(sub_label) => Some(label + "_"@ + sub_label@),
            None => Some(label),
        }
    } else {
        None
    }
}

/// The label under which a merchant's account with a connector is found.
pub fn get_connector_label(
    business_country: Option<&String>,
    business_label: Option<&String>,
    business_sub_label: Option<&String>,
    connector_name: &str,
) -> (r: Option<String>)
    ensures
        match connector_label(
            match business_country {
                Some(c) => Some(*c),
                None => None,
            },
            match business_label {
                Some(l) => Some(*l),
                None => None,
            },
            match business_sub_label {
                Some(s) => Some(*s),
                None => None,
            },
            connector_name@,
        ) {
            Some(text) => r is Some && r->Some_0@ == text,
            None => r is None,
        },
{
    match (business_country, business_label) {
        (Some(country), Some(label)) => {
            let mut text = String::from_str(connector_name);
            text.append("_");
            text.append(country.as_str());
            text.append("_");
            text.append(label.as_str());
            match business_sub_label {
                Some(sub_label) => {
                    text.append("_");
                    text.append(sub_label.as_str());
                },
                None => {},
            }
            Some(text)
        },
        _ => None,
    }
}

/// Whether a failed attempt ended in a state from which the payment may be tried again.
pub open spec fn attempt_failed_for_good(status: AttemptStatus) -> bool {
    match status {
        AttemptStatus::AuthenticationFailed
        | AttemptStatus::AuthorizationFailed
        | AttemptStatus::Voided
        | AttemptStatus::RouterDeclined
        | AttemptStatus::CaptureFailed
        | AttemptStatus::VoidFailed
        | AttemptStatus::AutoRefunded
        | AttemptStatus::Failure => true,
        _ => false,
    }
}

/// Whether a merchant may retry the payment by hand: undecided while the
/// payment is still in progress; never for a payment that succeeded, was
/// cancelled or awaits the merchant; for a failed payment only when the
/// attempt failed for good and the merchant does not send payment ids as
/// connector references.
pub open spec fn manual_retry_allowed(
    intent_status: IntentStatus,
    attempt_status: AttemptStatus,
    config: ConnectorRequestReferenceIdConfig,
    merchant_id: Seq<char>,
) -> Option<bool> {
    match intent_status {
        IntentStatus::Failed => Some(
            attempt_failed_for_good(attempt_status) && !sends_payment_id(config, merchant_id),
        ),
        IntentStatus::Cancelled | IntentStatus::RequiresMerchantAction | IntentStatus::Succeeded => Some(
            false,
        ),
        _ => None,
    }
}

/// Tells whether a merchant may retry the payment by hand.
pub fn is_manual_retry_allowed(
    intent_status: &IntentStatus,
    attempt_status: &AttemptStatus,
    connector_request_reference_id_config: &ConnectorRequestReferenceIdConfig,
    merchant_id: &str,
) -> (r: Option<bool>)
    ensures
        r == manual_retry_allowed(
            *intent_status,
            *attempt_status,
            *connector_request_reference_id_config,
            merchant_id@,
        ),
{
    let eligible: Option<bool> = match intent_status {
        IntentStatus::Failed => match attempt_status {
            AttemptStatus::AuthenticationFailed
            | AttemptStatus::AuthorizationFailed
            | AttemptStatus::Voided
            | AttemptStatus::RouterDeclined
            | AttemptStatus::CaptureFailed
            | AttemptStatus::VoidFailed
            | AttemptStatus::AutoRefunded
            | AttemptStatus::Failure => Some(true),
            _ => Some(false),
        },
        IntentStatus::Cancelled | IntentStatus::RequiresMerchantAction | IntentStatus::Succeeded => Some(
            false,
        ),
        _ => None,
    };
    match eligible {
        Some(status_allows) => {
            let enabled = !contains_text(
                &connector_request_reference_id_config.merchant_ids_send_payment_id_as_connector_request_id,
                merchant_id,
            );
            Some(status_allows && enabled)
        },
        None => None,
    }
}

/// How an Apple Pay token is handled: as the merchant's account with the
/// connector is set up, and only for Apple Pay payments.
pub fn decide_apple_pay_flow(
    payment_method_type: &Option<PaymentMethodType>,
    merchant_connector_account: &MerchantConnectorAccountType,
) -> (r: Option<ApplePayFlow>)
    ensures
        r == if *payment_method_type == Some(PaymentMethodType::ApplePay) {
            merchant_connector_account.apple_pay_flow
        } else {
            None
        },
{
    match payment_method_type {
        Some(PaymentMethodType::ApplePay) => merchant_connector_account.apple_pay_flow,
        _ => None,
    }
}

} // verus!
