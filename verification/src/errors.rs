//! Error values shared by the request builders and the response assembly.

use vstd::prelude::*;

verus! {

/// Failures raised while preparing or reading connector-facing data.
#[derive(Clone, Debug, PartialEq)]
pub enum ConnectorError {
    /// A required part of the payment record is absent; the dotted path names it.
    MissingRequiredField { field_name: &'static str },
    MissingConnectorTransactionID,
    NoConnectorMetaData,
    RequestEncodingFailed,
    NotImplemented(&'static str),
    /// A stored document could not be read as the expected structure.
    ParsingFailed { from_type: &'static str, to_type: &'static str, data: String },
    WebhookSignatureNotFound,
    WebhookSourceVerificationFailed,
}

/// Failures surfaced to the API client.
#[derive(Clone, Debug, PartialEq)]
pub enum ApiErrorResponse {
    MissingRequiredField { field_name: &'static str },
    InvalidDataValue { field_name: &'static str },
    InternalServerError,
    ResourceIdNotFound,
    MerchantConnectorAccountDisabled,
    PreconditionFailed { message: &'static str },
    PaymentAuthenticationFailed,
}

/// Failures of conversions between the domain and the stored customer record.
#[derive(Clone, Debug, PartialEq)]
pub enum ValidationError {
    MissingRequiredField { field_name: &'static str },
    InvalidValue { message: &'static str },
}

/// Failures of the encryption service.
#[derive(Clone, Copy, Debug, PartialEq, Eq, Structural)]
pub enum EncryptionError {
    /// An error occurred when encrypting input data.
    EncryptionFailed,
    /// An error occurred when decrypting input data.
    DecryptionFailed,
}

impl EncryptionError {
    /// The text of the description.
    pub open spec fn message_spec(self) -> Seq<char> {
        match self {
            EncryptionError::EncryptionFailed => "Failed to encrypt input data"@,
            EncryptionError::DecryptionFailed => "Failed to decrypt input data"@,
        }
    }

    /// The human-readable description of the failure.
    pub fn message(&self) -> (r: &'static str)
        ensures
            r@ == self.message_spec(),
    {
        match self {
            EncryptionError::EncryptionFailed => "Failed to encrypt input data",
            EncryptionError::DecryptionFailed => "Failed to decrypt input data",
        }
    }
}

pub type RouterResult<T> = Result<T, ApiErrorResponse>;

} // verus!
