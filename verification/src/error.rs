//! Errors of the client.
use vstd::prelude::*;

use crate::text::decimal;
use crate::text::decimal_string;

verus! {

/// The transport error of `reqwest` (DNS, connection, timeout, body decoding).
#[verifier::external_type_specification]
#[verifier::external_body]
pub struct ExReqwestError(reqwest::Error);

/// The (de)serialization error of `serde_json`.
#[verifier::external_type_specification]
#[verifier::external_body]
pub struct ExSerdeJsonError(serde_json::Error);

#[derive(Debug)]
pub enum MnemeBrainError {
    /// Server returned 4xx/5xx. Contains status code and response body text.
    Http { status: u16, message: String },
    /// Network/transport error (DNS, connection, timeout). Wraps reqwest::Error.
    Request(reqwest::Error),
    /// Response body could not be deserialized. Wraps serde_json::Error.
    Json(serde_json::Error),
    /// Catch-all for errors that don't fit other variants.
    Other(String),
}

pub type Result<T> = std::result::Result<T, MnemeBrainError>;

impl From<reqwest::Error> for MnemeBrainError {
    fn from(err: reqwest::Error) -> (r: MnemeBrainError) {
        MnemeBrainError::Request(err)
    }
}

impl vstd::std_specs::convert::FromSpecImpl<reqwest::Error> for MnemeBrainError {
    open spec fn obeys_from_spec() -> bool {
        true
    }

    open spec fn from_spec(v: reqwest::Error) -> MnemeBrainError {
        MnemeBrainError::Request(v)
    }
}

impl From<serde_json::Error> for MnemeBrainError {
    fn from(err: serde_json::Error) -> (r: MnemeBrainError) {
        MnemeBrainError::Json(err)
    }
}

impl vstd::std_specs::convert::FromSpecImpl<serde_json::Error> for MnemeBrainError {
    open spec fn obeys_from_spec() -> bool {
        true
    }

    open spec fn from_spec(v: serde_json::Error) -> MnemeBrainError {
        MnemeBrainError::Json(v)
    }
}

/// The message of an HTTP failure: `HTTP error (status {status}): {message}`.
pub open spec fn http_error_text(status: u16, message: Seq<char>) -> Seq<char> {
    "HTTP error (status "@ + decimal(status as nat) + "): "@ + message
}

/// Whether `s` begins with `prefix`.
pub open spec fn starts_with(s: Seq<char>, prefix: Seq<char>) -> bool {
    prefix.len() <= s.len() && s.subrange(0, prefix.len() as int) == prefix
}

/// Calls `Display::fmt` of `reqwest::Error`. Nothing is claimed of the text.
#[verifier::external_body]
fn reqwest_error_text(err: &reqwest::Error) -> String {
    format!("{}", err)
}

/// Calls `Display::fmt` of `serde_json::Error`. Nothing is claimed of the text.
#[verifier::external_body]
fn serde_json_error_text(err: &serde_json::Error) -> String {
    format!("{}", err)
}

impl MnemeBrainError {
    /// The human-readable message of the error.
    pub fn to_string(&self) -> (s: String)
        ensures
            match self {
                MnemeBrainError::Http { status, message } => s@ == http_error_text(
                    *status,
                    message@,
                ),
                MnemeBrainError::Request(_) => starts_with(s@, "Request failed: "@),
                MnemeBrainError::Json(_) => starts_with(s@, "JSON error: "@),
                MnemeBrainError::Other(message) => s@ == message@,
            },
    {
        match self {
            MnemeBrainError::Http { status, message } => {
                let mut s = String::from_str("HTTP error (status ");
                s.append(decimal_string(*status as u64).as_str());
                s.append("): ");
                s.append(message.as_str());
                s
            },
            MnemeBrainError::Request(err) => {
                let mut s = String::from_str("Request failed: ");
                let ghost prefix = s@;
                s.append(reqwest_error_text(err).as_str());
                assert(s@.subrange(0, prefix.len() as int) =~= prefix);
                s
            },
            MnemeBrainError::Json(err) => {
                let mut s = String::from_str("JSON error: ");
                let ghost prefix = s@;
                s.append(serde_json_error_text(err).as_str());
                assert(s@.subrange(0, prefix.len() as int) =~= prefix);
                s
            },
            MnemeBrainError::Other(message) => message.clone(),
        }
    }
}

} // verus!
