//! Reading of HTTP headers that arrive with a connector's call.

use vstd::prelude::*;

use crate::errors::ConnectorError;

verus! {

/// `actix_web::http::header::HeaderMap`: the headers of an HTTP message.
#[verifier::external_type_specification]
#[verifier::external_body]
pub struct ExHeaderMap(actix_web::http::header::HeaderMap);

/// `actix_web::http::header::ToStrError`: why the value of a header is no text.
#[verifier::external_type_specification]
#[verifier::external_body]
pub struct ExToStrError(actix_web::http::header::ToStrError);

/// What a header map holds, as its lookup shows it: the keys under which
/// `HeaderMap::get` finds a value, each with the text of the value that
/// it finds, as `HeaderValue::to_str` gives it; no text where the value
/// is not made of visible ASCII characters.
pub uninterp spec fn header_values(headers: actix_web::http::header::HeaderMap) -> Map<
    Seq<char>,
    Option<Seq<char>>,
>;

/// The text of the value of a header, if the value is text.
pub open spec fn text_of(value: Result<&str, actix_web::http::header::ToStrError>) -> Option<
    Seq<char>,
> {
    match value {
        Ok(text) => Some(text@),
        Err(_) => None,
    }
}

/// `HeaderMap::get` with a string key, followed by `HeaderValue::to_str`
/// on what was found. The contract only names the outcome: nothing is
/// found exactly under the keys that the map does not hold.
#[verifier::external_body]
pub(crate) fn lookup<'a>(key: &str, headers: &'a actix_web::http::header::HeaderMap) -> (r: Option<
    Result<&'a str, actix_web::http::header::ToStrError>,
>)
    ensures
        r is Some <==> header_values(*headers).dom().contains(key@),
        r is Some ==> header_values(*headers)[key@] == text_of(r->Some_0),
{
    match headers.get(key) {
        Some(value) => Some(value.to_str()),
        None => None,
    }
}

/// The outcome of reading a header, given what the lookup found: a
/// header that is not there fails the verification of the source, and
/// one whose value is no text counts as a missing signature.
pub fn header_value_of<'a, E>(found: Option<Result<&'a str, E>>) -> (r: Result<
    &'a str,
    ConnectorError,
>)
    ensures
        r == match found {
            None => Err::<&'a str, ConnectorError>(
                ConnectorError::WebhookSourceVerificationFailed,
            ),
            Some(Err(_)) => Err(ConnectorError::WebhookSignatureNotFound),
            Some(Ok(text)) => Ok(text),
        },
{
    match found {
        None => Err(ConnectorError::WebhookSourceVerificationFailed),
        Some(Err(_)) => Err(ConnectorError::WebhookSignatureNotFound),
        Some(Ok(text)) => Ok(text),
    }
}

/// The text of the header `key`.
pub fn get_header_key_value<'a>(
    key: &str,
    headers: &'a actix_web::http::header::HeaderMap,
) -> (r: Result<&'a str, ConnectorError>)
    ensures
        match r {
            Ok(text) => header_values(*headers).dom().contains(key@) && header_values(
                *headers,
            )[key@] == Some(text@),
            Err(e) => if header_values(*headers).dom().contains(key@) {
                header_values(*headers)[key@] is None && e
                    == ConnectorError::WebhookSignatureNotFound
            } else {
                e == ConnectorError::WebhookSourceVerificationFailed
            },
        },
{
    header_value_of(lookup(key, headers))
}

} // verus!
