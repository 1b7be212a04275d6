//! The errors a Redfish call can end in.

use vstd::prelude::*;

verus! {

/// A value read from the BMC that could not be accepted, with the reason.
#[derive(Debug)]
pub struct InvalidValueError(pub String);

/// What went wrong talking to a BMC.
///
/// The transport level causes (the HTTP client's error, the JSON codec's error)
/// are kept as the text they render to.
#[derive(Debug)]
pub enum RedfishError {
    NetworkError { url: String, source: String },
    HTTPError { url: String, source: String },
    HTTPErrorCode { url: String, status_code: u16 },
    JsonDeserializeError { url: String, body: String, source: String },
    JsonSerializeError { url: String, object_debug: String, source: String },
    NoContent,
    MissingBootOption(String),
    UnnecessaryOperation,
    MissingKey { key: String, url: String },
    InvalidKeyType { key: String, expected_type: String, url: String },
    InvalidValue { url: String, field: String, err: InvalidValueError },
    Lockdown,
    NotSupported(String),
    UserNotFound(String),
    FileError(String),
}

/// `e` is a `MissingKey` error for `key` at `url`.
pub open spec fn is_missing_key(e: RedfishError, key: Seq<char>, url: Seq<char>) -> bool {
    match e {
        RedfishError::MissingKey { key: k, url: u } => k@ == key && u@ == url,
        _ => false,
    }
}

/// `e` is an `InvalidKeyType` error for `key` at `url`, naming the type `expected`.
pub open spec fn is_invalid_key_type(
    e: RedfishError,
    key: Seq<char>,
    expected: Seq<char>,
    url: Seq<char>,
) -> bool {
    match e {
        RedfishError::InvalidKeyType { key: k, expected_type: t, url: u } => k@ == key && t@
            == expected && u@ == url,
        _ => false,
    }
}

/// `e` is a `NotSupported` error with the message `msg`.
pub open spec fn is_not_supported(e: RedfishError, msg: Seq<char>) -> bool {
    match e {
        RedfishError::NotSupported(m) => m@ == msg,
        _ => false,
    }
}

impl RedfishError {
    /// A `MissingKey` error.
    pub fn missing_key(key: &str, url: &str) -> (e: RedfishError)
        ensures
            is_missing_key(e, key@, url@),
    {
        RedfishError::MissingKey { key: key.to_string(), url: url.to_string() }
    }

    /// An `InvalidKeyType` error.
    pub fn invalid_key_type(key: &str, expected_type: &str, url: &str) -> (e: RedfishError)
        ensures
            is_invalid_key_type(e, key@, expected_type@, url@),
    {
        RedfishError::InvalidKeyType {
            key: key.to_string(),
            expected_type: expected_type.to_string(),
            url: url.to_string(),
        }
    }

    /// A `NotSupported` error.
    pub fn not_supported(msg: &str) -> (e: RedfishError)
        ensures
            is_not_supported(e, msg@),
    {
        RedfishError::NotSupported(msg.to_string())
    }
}

} // verus!
