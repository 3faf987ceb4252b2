//! The transport-facing error taxonomy: an exhaustive mapping from failure
//! values to a response status code and a caller-visible message that never
//! leaks storage detail.

use vstd::prelude::*;
use vstd::string::StringExecFns;
use crate::digits::{i32_to_string, spec_i32_digits};
use crate::service::ServiceError;

verus! {

/// Failure as the transport layer sees it.
#[derive(Debug, PartialEq, Eq)]
pub enum ApiError {
    /// A failure of the orchestrator, carried unchanged.
    Service(ServiceError),
    /// A malformed request rejected before it reached the orchestrator.
    Validation(String),
    /// The persistent store could not be reached.
    DatabaseConnection,
    /// Any other internal failure.
    Internal,
}

impl ApiError {
    /// The response status code this failure maps to.
    pub open spec fn spec_status_code(self) -> int {
        match self {
            ApiError::Service(ServiceError::OrderNotFound { .. }) => 404,
            ApiError::Service(ServiceError::Validation(..)) => 400,
            ApiError::Service(ServiceError::Repository(..)) => 500,
            ApiError::Service(ServiceError::StatusReporting(..)) => 500,
            ApiError::Validation(..) => 400,
            ApiError::DatabaseConnection => 503,
            ApiError::Internal => 500,
        }
    }

    /// The caller-visible message: a not-found names the id, a validation
    /// failure restates the constraint, and every internal fault is reduced
    /// to a generic line that leaks nothing.
    pub open spec fn spec_error_message(self) -> Seq<char> {
        match self {
            ApiError::Service(ServiceError::OrderNotFound { id }) => "Order with id "@
                + spec_i32_digits(id as int) + " not found"@,
            ApiError::Service(ServiceError::Validation(m)) => "Validation error: "@ + m@,
            ApiError::Service(ServiceError::Repository(..)) => "Internal server error"@,
            ApiError::Service(ServiceError::StatusReporting(..)) => "Internal server error"@,
            ApiError::Validation(m) => "Validation error: "@ + m@,
            ApiError::DatabaseConnection => "Service temporarily unavailable"@,
            ApiError::Internal => "Internal server error"@,
        }
    }

    /// Reduce this failure to the status code and message of the response
    /// body the transport layer sends.
    pub fn into_response(self) -> (r: (u16, String))
        ensures
            r.0 == self.spec_status_code(),
            r.1@ == self.spec_error_message(),
    {
        match self {
            ApiError::Service(ServiceError::OrderNotFound { id }) => {
                let digits = i32_to_string(id);
                let msg = String::from_str("Order with id ").concat(digits.as_str()).concat(
                    " not found",
                );
                (404, msg)
            },
            ApiError::Service(ServiceError::Validation(m)) => (
                400,
                String::from_str("Validation error: ").concat(m.as_str()),
            ),
            ApiError::Service(ServiceError::Repository(..)) => (
                500,
                String::from_str("Internal server error"),
            ),
            ApiError::Service(ServiceError::StatusReporting(..)) => (
                500,
                String::from_str("Internal server error"),
            ),
            ApiError::Validation(m) => (
                400,
                String::from_str("Validation error: ").concat(m.as_str()),
            ),
            ApiError::DatabaseConnection => (
                503,
                String::from_str("Service temporarily unavailable"),
            ),
            ApiError::Internal => (500, String::from_str("Internal server error")),
        }
    }
}

} // verus!
