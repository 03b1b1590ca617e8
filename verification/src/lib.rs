//! Typed client core for a keyword-statistics service that speaks a
//! JSON-RPC-like envelope: request validation and serialization, response
//! decoding into domain entities, and a closed taxonomy of error kinds.
//!
//! The HTTP transport itself is an external collaborator; this library
//! builds the outbound request bodies, checks the inbound envelope for a
//! service error code, and decodes the `data` payload of each call.
use vstd::prelude::*;

pub mod create_report;
pub mod delete_report;
pub mod get_report;
pub mod json;
pub mod region;
pub mod report_list;
pub mod wire;

pub use create_report::ReportRequest;
pub use delete_report::delete_result_from_response;
pub use get_report::{report_from_response, ReportEntry, WordstatItem};
pub use json::JsonValue;
pub use region::{regions_from_response, Region};
pub use report_list::{report_list_from_response, ReportStatus, StatusCode};

verus! {

/// The closed set of failures a caller can observe: validation errors,
/// malformed responses, and the service's numeric error codes mapped to
/// named kinds.
#[derive(Debug, Clone, Copy, PartialEq, Eq)]
pub enum ErrorKind {
    /// The response did not have the promised shape; `reason` names the
    /// missing or mismatched field.
    MalformedResponse { reason: &'static str },
    /// A phrase contained a character or sequence the service forbids.
    InvalidKeyphrase { reason: &'static str },
    /// A request may hold at most ten phrases.
    TooManyKeyphrases,
    /// The service answered with an error code this taxonomy does not know.
    UnrecognizedStatusCode { code: i64 },
    /// The HTTP exchange itself failed; carries the numeric HTTP status.
    TransportError { code: i64 },
    ReportNotFound,
    InvalidReportId,
    ReportQueueFull,
    QuotaExhausted,
    AuthenticationFailed,
    AccessDenied,
    ServiceInternalError,
    InvalidRequest,
    ReportNotReady,
    InvalidRequestParameters,
    /// The service answered outside its own conventions (for instance a
    /// delete acknowledged with a value other than `1`).
    UnknownError,
}

/// The service's numeric error codes, mapped to error kinds. Codes outside
/// the table map to `UnrecognizedStatusCode` carrying the code itself.
pub open spec fn service_error(code: i64) -> ErrorKind {
    if code == 24 || code == 91 {
        ErrorKind::ReportNotFound
    } else if code == 22 || code == 93 {
        ErrorKind::InvalidReportId
    } else if code == 31 {
        ErrorKind::ReportQueueFull
    } else if code == 152 {
        ErrorKind::QuotaExhausted
    } else if code == 53 {
        ErrorKind::AuthenticationFailed
    } else if code == 58 {
        ErrorKind::AccessDenied
    } else if code == 500 {
        ErrorKind::ServiceInternalError
    } else if code == 501 {
        ErrorKind::InvalidRequest
    } else if code == 74 || code == 92 {
        ErrorKind::ReportNotReady
    } else if code == 71 {
        ErrorKind::InvalidRequestParameters
    } else {
        ErrorKind::UnrecognizedStatusCode { code }
    }
}

/// Maps a numeric service error code to its error kind, exactly as
/// `service_error` states.
pub fn map_service_error_code(code: i64) -> (r: ErrorKind)
    ensures
        r == service_error(code),
{
    match code {
        24 | 91 => ErrorKind::ReportNotFound,
        22 | 93 => ErrorKind::InvalidReportId,
        31 => ErrorKind::ReportQueueFull,
        152 => ErrorKind::QuotaExhausted,
        53 => ErrorKind::AuthenticationFailed,
        58 => ErrorKind::AccessDenied,
        500 => ErrorKind::ServiceInternalError,
        501 => ErrorKind::InvalidRequest,
        74 | 92 => ErrorKind::ReportNotReady,
        71 => ErrorKind::InvalidRequestParameters,
        _ => ErrorKind::UnrecognizedStatusCode { code },
    }
}

/// What the transport accepts of an HTTP exchange: exactly one status,
/// 200, means success; every other status — redirects included — is a
/// transport error carrying the numeric status code.
pub open spec fn spec_check_http_status(status: u16) -> Result<(), ErrorKind> {
    if status == 200 {
        Ok(())
    } else {
        Err(ErrorKind::TransportError { code: status as i64 })
    }
}

/// Tests an HTTP status code, exactly as `spec_check_http_status`
/// states.
pub fn check_http_status(status: u16) -> (r: Result<(), ErrorKind>)
    ensures
        r == spec_check_http_status(status),
{
    if status == 200 {
        Ok(())
    } else {
        Err(ErrorKind::TransportError { code: status as i64 })
    }
}

/// What `check_status` returns: an envelope without an `error_code` field
/// is the normal "no error" signal; an integer code maps through
/// `service_error`; a present but non-integer code is malformed.
pub open spec fn spec_check_status(envelope: JsonValue) -> Result<(), ErrorKind> {
    match envelope.spec_get("error_code"@) {
        None => Ok(()),
        Some(code_val) => match code_val {
            JsonValue::Int(code) => Err(service_error(code)),
            _ => Err(ErrorKind::MalformedResponse { reason: "Error code is not an integer" }),
        },
    }
}

/// Inspects a response envelope for an embedded service error code, before
/// any decoder touches `data`.
pub fn check_status(envelope: &JsonValue) -> (r: Result<(), ErrorKind>)
    ensures
        r == spec_check_status(*envelope),
{
    match envelope.get("error_code") {
        None => Ok(()),
        Some(JsonValue::Int(code)) => Err(map_service_error_code(*code)),
        Some(_) => Err(ErrorKind::MalformedResponse { reason: "Error code is not an integer" }),
    }
}

} // verus!
