use actix_web::http::header::{HeaderMap, HeaderName, HeaderValue};
use router::errors::ConnectorError;
use router::headers::{get_header_key_value, header_value_of};

fn headers() -> HeaderMap {
    let mut map = HeaderMap::new();
    map.insert(HeaderName::from_static("x-signature"), HeaderValue::from_static("t=1,v1=abc"));
    map.append(HeaderName::from_static("x-signature"), HeaderValue::from_static("t=2,v1=def"));
    map.insert(
        HeaderName::from_static("x-binary"),
        HeaderValue::from_bytes(&[0xfa, 0xfb]).unwrap(),
    );
    map.insert(HeaderName::from_static("x-empty"), HeaderValue::from_static(""));
    map
}

#[test]
fn header_that_is_there_gives_its_text() {
    let map = headers();
    assert_eq!(get_header_key_value("x-signature", &map), Ok("t=1,v1=abc"));
    assert_eq!(get_header_key_value("X-Signature", &map), Ok("t=1,v1=abc"));
    assert_eq!(get_header_key_value("x-empty", &map), Ok(""));
}

#[test]
fn header_that_is_not_there_fails_the_source_verification() {
    let map = headers();
    assert_eq!(
        get_header_key_value("x-other", &map),
        Err(ConnectorError::WebhookSourceVerificationFailed)
    );
    assert_eq!(
        get_header_key_value("not a header name", &map),
        Err(ConnectorError::WebhookSourceVerificationFailed)
    );
    assert_eq!(
        get_header_key_value("x-signature", &HeaderMap::new()),
        Err(ConnectorError::WebhookSourceVerificationFailed)
    );
}

#[test]
fn header_that_is_no_text_counts_as_a_missing_signature() {
    let map = headers();
    assert_eq!(
        get_header_key_value("x-binary", &map),
        Err(ConnectorError::WebhookSignatureNotFound)
    );
}

#[test]
fn outcome_of_a_lookup() {
    assert_eq!(
        header_value_of::<()>(None),
        Err(ConnectorError::WebhookSourceVerificationFailed)
    );
    assert_eq!(header_value_of(Some(Err(()))), Err(ConnectorError::WebhookSignatureNotFound));
    assert_eq!(header_value_of::<()>(Some(Ok("abc"))), Ok("abc"));
}
