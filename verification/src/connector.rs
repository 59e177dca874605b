//! The connectors known by name, and how each resolves the transaction id of an attempt.

use vstd::prelude::*;

use crate::enums::{Connector, GetToken};
use crate::errors::ApiErrorResponse;
use crate::storage::PaymentAttempt;
use crate::text::{clone_opt_string, decimal_digits, decimal_text};

verus! {

/// The text of an optional transaction id.
pub open spec fn id_text(id: Option<String>) -> Option<Seq<char>> {
    match id {
        Some(text) => Some(text@),
        None => None,
    }
}

/// The text of the outcome of resolving a transaction id.
pub open spec fn resolution_text(r: Result<Option<String>, ApiErrorResponse>) -> Result<
    Option<Seq<char>>,
    ApiErrorResponse,
> {
    match r {
        Ok(id) => Ok(id_text(id)),
        Err(e) => Err(e),
    }
}

/// The capability of a connector to say under which id it knows an attempt.
pub trait ConnectorTransactionId {
    /// The transaction id of the attempt as this connector resolves it.
    spec fn resolved(&self, attempt: PaymentAttempt) -> Result<
        Option<Seq<char>>,
        ApiErrorResponse,
    >;

    fn connector_transaction_id(&self, payment_attempt: &PaymentAttempt) -> (r: Result<
        Option<String>,
        ApiErrorResponse,
    >)
        ensures
            resolution_text(r) == self.resolved(*payment_attempt),
    ;
}

/// A connector that knows an attempt under the id recorded on it.
#[derive(Clone, Copy, Debug, PartialEq, Eq, Structural)]
pub struct StandardConnector;

/// The Helcim connector.
#[derive(Clone, Copy, Debug, PartialEq, Eq, Structural)]
pub struct Helcim;

/// The Nexinets connector.
#[derive(Clone, Copy, Debug, PartialEq, Eq, Structural)]
pub struct Nexinets;

impl ConnectorTransactionId for StandardConnector {
    /// The id recorded on the attempt, if any.
    open spec fn resolved(&self, attempt: PaymentAttempt) -> Result<
        Option<Seq<char>>,
        ApiErrorResponse,
    > {
        Ok(id_text(attempt.connector_transaction_id))
    }

    fn connector_transaction_id(&self, payment_attempt: &PaymentAttempt) -> (r: Result<
        Option<String>,
        ApiErrorResponse,
    >) {
        Ok(clone_opt_string(&payment_attempt.connector_transaction_id))
    }
}

impl ConnectorTransactionId for Helcim {
    /// The id recorded on the attempt; where none is recorded, the
    /// pre-authorisation id kept in the attempt's metadata, which then must
    /// be there.
    open spec fn resolved(&self, attempt: PaymentAttempt) -> Result<
        Option<Seq<char>>,
        ApiErrorResponse,
    > {
        if attempt.connector_transaction_id is Some {
            Ok(id_text(attempt.connector_transaction_id))
        } else if attempt.connector_metadata is Some && attempt.connector_metadata->Some_0.helcim
            is Some {
            Ok(
                Some(
                    decimal_digits(
                        attempt.connector_metadata->Some_0.helcim->Some_0.preauth_transaction_id as nat,
                    ),
                ),
            )
        } else {
            Err(ApiErrorResponse::ResourceIdNotFound)
        }
    }

    fn connector_transaction_id(&self, payment_attempt: &PaymentAttempt) -> (r: Result<
        Option<String>,
        ApiErrorResponse,
    >) {
        if payment_attempt.connector_transaction_id.is_none() {
            match &payment_attempt.connector_metadata {
                Some(metadata) => match metadata.helcim {
                    Some(meta) => Ok(Some(decimal_text(meta.preauth_transaction_id as u128))),
                    None => Err(ApiErrorResponse::ResourceIdNotFound),
                },
                None => Err(ApiErrorResponse::ResourceIdNotFound),
            }
        } else {
            Ok(clone_opt_string(&payment_attempt.connector_transaction_id))
        }
    }
}

impl ConnectorTransactionId for Nexinets {
    /// The transaction id kept in the attempt's metadata, which must be readable.
    open spec fn resolved(&self, attempt: PaymentAttempt) -> Result<
        Option<Seq<char>>,
        ApiErrorResponse,
    > {
        if attempt.connector_metadata is Some && attempt.connector_metadata->Some_0.nexinets
            is Some {
            Ok(id_text(attempt.connector_metadata->Some_0.nexinets->Some_0.transaction_id))
        } else {
            Err(ApiErrorResponse::ResourceIdNotFound)
        }
    }

    fn connector_transaction_id(&self, payment_attempt: &PaymentAttempt) -> (r: Result<
        Option<String>,
        ApiErrorResponse,
    >) {
        match &payment_attempt.connector_metadata {
            Some(metadata) => match &metadata.nexinets {
                Some(meta) => Ok(clone_opt_string(&meta.transaction_id)),
                None => Err(ApiErrorResponse::ResourceIdNotFound),
            },
            None => Err(ApiErrorResponse::ResourceIdNotFound),
        }
    }
}

/// What the connector registry hands out for a connector.
#[derive(Clone, Copy, Debug, PartialEq, Eq, Structural)]
pub enum ConnectorHandle {
    Helcim(Helcim),
    Nexinets(Nexinets),
    Standard(StandardConnector),
}

impl ConnectorTransactionId for ConnectorHandle {
    open spec fn resolved(&self, attempt: PaymentAttempt) -> Result<
        Option<Seq<char>>,
        ApiErrorResponse,
    > {
        match self {
            ConnectorHandle::Helcim(c) => c.resolved(attempt),
            ConnectorHandle::Nexinets(c) => c.resolved(attempt),
            ConnectorHandle::Standard(c) => c.resolved(attempt),
        }
    }

    fn connector_transaction_id(&self, payment_attempt: &PaymentAttempt) -> (r: Result<
        Option<String>,
        ApiErrorResponse,
    >) {
        match self {
            ConnectorHandle::Helcim(c) => c.connector_transaction_id(payment_attempt),
            ConnectorHandle::Nexinets(c) => c.connector_transaction_id(payment_attempt),
            ConnectorHandle::Standard(c) => c.connector_transaction_id(payment_attempt),
        }
    }
}

/// A connector as the registry knows it.
#[derive(Clone, Debug, PartialEq)]
pub struct ConnectorData {
    pub connector: ConnectorHandle,
    pub connector_name: Connector,
    pub get_token: GetToken,
    pub merchant_connector_id: Option<String>,
}

/// The handle of a connector.
pub open spec fn handle_of(connector: Connector) -> ConnectorHandle {
    match connector {
        Connector::Helcim => ConnectorHandle::Helcim(Helcim),
        Connector::Nexinets => ConnectorHandle::Nexinets(Nexinets),
        _ => ConnectorHandle::Standard(StandardConnector),
    }
}

impl ConnectorData {
    /// Looks a connector up by the name under which it is configured. An
    /// unknown name is an internal error.
    pub fn get_connector_by_name(
        name: &str,
        connector_type: GetToken,
        connector_id: Option<String>,
    ) -> (r: Result<Self, ApiErrorResponse>)
        ensures
            match r {
                Ok(data) => {
                    &&& Connector::named(name@) == Some(data.connector_name)
                    &&& data.connector == handle_of(data.connector_name)
                    &&& data.get_token == connector_type
                    &&& data.merchant_connector_id == connector_id
                },
                Err(e) => Connector::named(name@) is None && e
                    == ApiErrorResponse::InternalServerError,
            },
    {
        match Connector::from_name(name) {
            Some(connector_name) => {
                let connector = match connector_name {
                    Connector::Helcim => ConnectorHandle::Helcim(Helcim),
                    Connector::Nexinets => ConnectorHandle::Nexinets(Nexinets),
                    _ => ConnectorHandle::Standard(StandardConnector),
                };
                Ok(
                    ConnectorData {
                        connector,
                        connector_name,
                        get_token: connector_type,
                        merchant_connector_id: connector_id,
                    },
                )
            },
            None => Err(ApiErrorResponse::InternalServerError),
        }
    }
}

} // verus!
