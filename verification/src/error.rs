//! The ways a call can fail, and the error body that the API sends.

use vstd::prelude::*;
use vstd::std_specs::convert::FromSpecImpl;

verus! {

/// The error type of `reqwest`. Nothing is claimed of its contents: a value
/// is only carried from the transport to the caller.
#[verifier::external_type_specification]
#[verifier::external_body]
pub struct ExTransportError(reqwest::Error);

/// The error type of `serde_json`. Nothing is claimed of its contents: a
/// value is only carried from the decoder to the caller.
#[verifier::external_type_specification]
#[verifier::external_body]
pub struct ExDecodeError(serde_json::Error);

/// A JSON value of `serde_json`. Nothing is claimed of its contents: the
/// parameters of a validation error are handed on as they were decoded.
#[verifier::external_type_specification]
#[verifier::external_body]
pub struct ExJsonValue(serde_json::Value);

pub type SdkResult<T> = Result<T, SdkError>;

/// Everything that can go wrong in a call.
#[derive(Debug)]
pub enum SdkError {
    /// The round trip did not complete; there is no status and no body.
    Http(reqwest::Error),
    /// A success response arrived, and its body is not of the expected shape.
    Json(serde_json::Error),
    /// The authorization flow failed: a malformed URL in the configuration,
    /// or any failure of the token exchange.
    AuthConfiguration(String),
    /// The API answered with a failure status and a well-formed error body.
    Api { status: u16, data: TwitterApiErrorData },
    /// The API answered with a failure status, and its body is not a
    /// well-formed error body. Status and body are not kept.
    Unknown(String),
}

impl From<reqwest::Error> for SdkError {
    fn from(error: reqwest::Error) -> (converted: SdkError) {
        SdkError::Http(error)
    }
}

impl FromSpecImpl<reqwest::Error> for SdkError {
    open spec fn obeys_from_spec() -> bool {
        true
    }

    open spec fn from_spec(error: reqwest::Error) -> SdkError {
        SdkError::Http(error)
    }
}

impl From<serde_json::Error> for SdkError {
    fn from(error: serde_json::Error) -> (converted: SdkError) {
        SdkError::Json(error)
    }
}

impl FromSpecImpl<serde_json::Error> for SdkError {
    open spec fn obeys_from_spec() -> bool {
        true
    }

    open spec fn from_spec(error: serde_json::Error) -> SdkError {
        SdkError::Json(error)
    }
}

/// The error body of the API.
#[derive(Debug)]
pub struct TwitterApiErrorData {
    pub title: String,
    pub detail: Option<String>,
    pub error_type: Option<String>,
    pub errors: Option<Vec<ValidationError>>,
}

/// One field-level complaint inside an error body.
#[derive(Debug)]
pub struct ValidationError {
    pub message: String,
    pub parameters: Option<serde_json::Value>,
}

} // verus!
