//! What the request layer tells a caller when an operation fails, and the
//! health report.

use vstd::prelude::*;
use crate::errors::ZkpError;
use crate::types::{ErrorResponse, SignMessageResponse};

verus! {

/// HTTP status 503.
pub const SERVICE_UNAVAILABLE: u16 = 503;

/// The name under which the service reports its health.
pub const SERVICE_NAME: &'static str = "zkp-service";

/// The report of a healthy service.
#[derive(Debug, Clone, PartialEq, Eq)]
pub struct HealthReport {
    pub status: String,
    pub service: String,
    pub timestamp: String,
}

/// The body that reports a failed operation: the error's full message.
pub fn error_response(e: &ZkpError) -> (body: ErrorResponse)
    ensures
        body.error@ == e@.message(),
{
    ErrorResponse { error: e.message() }
}

/// The health report. The service is healthy if it can produce its public
/// key; then the report is stamped with `timestamp`. Otherwise the body
/// says why it is unhealthy.
pub fn health_check(public_key: &Result<String, ZkpError>, timestamp: String) -> (report: Result<
    HealthReport,
    ErrorResponse,
>)
    ensures
        match public_key {
            Ok(_) => report matches Ok(healthy) && healthy.status@ == "healthy"@
                && healthy.service@ == SERVICE_NAME@ && healthy.timestamp == timestamp,
            Err(e) => report matches Err(body) && body.error@ == "Service unhealthy: "@
                + e@.message(),
        },
{
    match public_key {
        Ok(_) => Ok(
            HealthReport {
                status: String::from_str("healthy"),
                service: String::from_str(SERVICE_NAME),
                timestamp,
            },
        ),
        Err(e) => {
            let message = e.message();
            Err(
                ErrorResponse {
                    error: String::from_str("Service unhealthy: ").concat(message.as_str()),
                },
            )
        },
    }
}

/// The answer to a request for a signature: the signature and the key
/// that verifies it, or the first of the two failures.
pub fn sign_message(
    signature: Result<String, ZkpError>,
    public_key: Result<String, ZkpError>,
) -> (reply: Result<SignMessageResponse, ErrorResponse>)
    ensures
        match (signature, public_key) {
            (Ok(s), Ok(k)) => reply matches Ok(signed) && signed.signature == s
                && signed.public_key == k,
            (Err(e), _) => reply matches Err(body) && body.error@ == e@.message(),
            (Ok(_), Err(e)) => reply matches Err(body) && body.error@ == e@.message(),
        },
{
    match signature {
        Ok(s) => match public_key {
            Ok(k) => Ok(SignMessageResponse { signature: s, public_key: k }),
            Err(e) => Err(error_response(&e)),
        },
        Err(e) => Err(error_response(&e)),
    }
}

} // verus!
