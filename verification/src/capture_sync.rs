//! Reconciliation of what a connector reports about one capture.

use vstd::prelude::*;

use crate::enums::{AttemptStatus, CaptureStatus};
use crate::errors::ApiErrorResponse;
use crate::storage::CaptureUpdate;
use crate::types::{CaptureSyncResponse, ResponseId};

verus! {

/// The state of a capture that a connector reports through an attempt
/// status, for the statuses that say anything of a capture.
pub open spec fn capture_status_of(status: AttemptStatus) -> Option<CaptureStatus> {
    match status {
        AttemptStatus::Charged | AttemptStatus::PartialCharged => Some(CaptureStatus::Charged),
        AttemptStatus::Pending | AttemptStatus::CaptureInitiated => Some(CaptureStatus::Pending),
        AttemptStatus::Failure | AttemptStatus::CaptureFailed => Some(CaptureStatus::Failed),
        _ => None,
    }
}

/// The error for an attempt status that says nothing of a capture.
pub open spec fn unmapped_capture_status() -> ApiErrorResponse {
    ApiErrorResponse::PreconditionFailed {
        message: "AttemptStatus must be one of these for multiple partial captures [Charged, PartialCharged, Pending, CaptureInitiated, Failure, CaptureFailed]",
    }
}

impl CaptureStatus {
    /// The state of a capture that an attempt status reports.
    pub fn foreign_try_from(attempt_status: AttemptStatus) -> (r: Result<Self, ApiErrorResponse>)
        ensures
            match capture_status_of(attempt_status) {
                Some(status) => r == Ok::<Self, ApiErrorResponse>(status),
                None => r == Err::<Self, ApiErrorResponse>(unmapped_capture_status()),
            },
    {
        match attempt_status {
            AttemptStatus::Charged | AttemptStatus::PartialCharged => Ok(CaptureStatus::Charged),
            AttemptStatus::Pending | AttemptStatus::CaptureInitiated => Ok(CaptureStatus::Pending),
            AttemptStatus::Failure | AttemptStatus::CaptureFailed => Ok(CaptureStatus::Failed),
            _ => Err(
                ApiErrorResponse::PreconditionFailed {
                    message: "AttemptStatus must be one of these for multiple partial captures [Charged, PartialCharged, Pending, CaptureInitiated, Failure, CaptureFailed]",
                },
            ),
        }
    }
}

/// Whether an HTTP status of a connector counts as transient: 500 to 511.
pub open spec fn is_transient_status(status_code: u16) -> bool {
    500 <= status_code <= 511
}

/// The state of a capture whose sync failed with the given HTTP status:
/// still pending after a transient failure, failed after any other.
pub open spec fn failed_sync_status(status_code: u16) -> CaptureStatus {
    if is_transient_status(status_code) {
        CaptureStatus::Pending
    } else {
        CaptureStatus::Failed
    }
}

/// The connector's id of a capture, where the connector named one.
pub open spec fn connector_capture_id(resource_id: ResponseId) -> Option<String> {
    match resource_id {
        ResponseId::ConnectorTransactionId(id) => Some(id),
        ResponseId::EncodedData(_) | ResponseId::NoResponseId => None,
    }
}

/// The transition of a capture that a sync outcome calls for.
pub open spec fn capture_update_of(response: CaptureSyncResponse) -> Result<
    CaptureUpdate,
    ApiErrorResponse,
> {
    match response {
        CaptureSyncResponse::Success {
            resource_id,
            status,
            connector_response_reference_id,
            amount,
        } => match capture_status_of(status) {
            Some(capture_status) => Ok(
                CaptureUpdate::ResponseUpdate {
                    status: capture_status,
                    connector_capture_id: connector_capture_id(resource_id),
                    connector_response_reference_id,
                },
            ),
            None => Err(unmapped_capture_status()),
        },
        CaptureSyncResponse::Error { code, message, reason, status_code, amount } => Ok(
            CaptureUpdate::ErrorUpdate {
                status: failed_sync_status(status_code),
                error_code: Some(code),
                error_message: Some(message),
                error_reason: reason,
            },
        ),
    }
}

impl CaptureUpdate {
    /// The transition of a capture that the outcome of its sync calls for.
    /// It depends on that one outcome alone, so the outcomes of several
    /// captures can be reconciled in any order.
    pub fn foreign_try_from(capture_sync_response: CaptureSyncResponse) -> (r: Result<
        Self,
        ApiErrorResponse,
    >)
        ensures
            r == capture_update_of(capture_sync_response),
    {
        match capture_sync_response {
            CaptureSyncResponse::Success {
                resource_id,
                status,
                connector_response_reference_id,
                amount: _,
            } => {
                let connector_capture_id = match resource_id {
                    ResponseId::ConnectorTransactionId(id) => Some(id),
                    ResponseId::EncodedData(_) | ResponseId::NoResponseId => None,
                };
                Ok(
                    CaptureUpdate::ResponseUpdate {
                        status: CaptureStatus::foreign_try_from(status)?,
                        connector_capture_id,
                        connector_response_reference_id,
                    },
                )
            },
            CaptureSyncResponse::Error { code, message, reason, status_code, amount: _ } => Ok(
                CaptureUpdate::ErrorUpdate {
                    status: if 500 <= status_code && status_code <= 511 {
                        CaptureStatus::Pending
                    } else {
                        CaptureStatus::Failed
                    },
                    error_code: Some(code),
                    error_message: Some(message),
                    error_reason: reason,
                },
            ),
        }
    }
}

/// A failed sync leaves the capture pending exactly when the connector
/// answered with a status from 500 to 511, and failed otherwise.
pub proof fn failed_sync_is_pending_iff_transient(
    code: String,
    message: String,
    reason: Option<String>,
    status_code: u16,
    amount: Option<crate::api::MinorUnit>,
)
    ensures
        capture_update_of(CaptureSyncResponse::Error { code, message, reason, status_code, amount })
            matches Ok(CaptureUpdate::ErrorUpdate { status, .. }) && (status
            == CaptureStatus::Pending <==> 500 <= status_code <= 511) && (status
            == CaptureStatus::Failed <==> !(500 <= status_code <= 511)),
{
}

} // verus!
