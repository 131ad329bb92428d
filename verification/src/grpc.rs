//! The answers of the client-facing service.

use crate::protobuf::Response;
use vstd::prelude::*;
use vstd::string::StringExecFns;

verus! {

/// Seconds to wait for the lock on the store before a read is given up.
pub const LOCK_TIMEOUT_SECS: u64 = 1;

pub const LOCK_TIMEOUT: &'static str = "Timeout acquiring read lock on DB";

/// Why a request of a client failed.
#[derive(Clone, Debug, PartialEq, Eq)]
pub enum ApiError {
    /// The lock on the store was not to be had in time.
    DeadlineExceeded(String),
    /// The store could not serve the request.
    Internal(String),
}

/// The answer to a read: the value found under the key, or an internal
/// error that names the key.
pub fn get_response(key: &str, found: Option<String>) -> (result: Result<Response, ApiError>)
    ensures
        match found {
            Some(value) => result == Ok::<Response, ApiError>(Response { value: Some(value) }),
            None => result matches Err(ApiError::Internal(text)) && text@ == "Key not found: "@
                + key@,
        },
{
    match found {
        Some(value) => Ok(Response { value: Some(value) }),
        None => {
            let mut text = String::from_str("Key not found: ");
            text.append(key);
            Err(ApiError::Internal(text))
        },
    }
}

/// The error for a read that could not get the lock in time.
pub fn lock_timeout() -> (error: ApiError)
    ensures
        error matches ApiError::DeadlineExceeded(text) && text@ == LOCK_TIMEOUT@,
{
    ApiError::DeadlineExceeded(String::from_str(LOCK_TIMEOUT))
}

/// The error for a write that the consensus engine refused.
pub fn write_failure(cause: &str) -> (error: ApiError)
    ensures
        error matches ApiError::Internal(text) && text@ == "Failed to write to store: "@ + cause@,
{
    let mut text = String::from_str("Failed to write to store: ");
    text.append(cause);
    ApiError::Internal(text)
}

} // verus!
