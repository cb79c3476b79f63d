use vstd::prelude::*;

use crate::method::Method;

verus! {

#[verifier::external_type_specification]
#[verifier::external_body]
pub struct ExReqwestError(reqwest::Error);

/// What can go wrong while sending a request or reading its response.
#[derive(Debug)]
pub enum HttpcError {
    /// A free-form failure.
    Generic(String),
    /// A body-carrying call was made with a method other than POST, PUT or
    /// PATCH.
    NotSupportedMethodForPush { given_method: Method },
    /// The body is not JSON.
    NoJsonBody,
    /// The body is not text.
    NoTextBody,
    /// Nothing stands in the JSON body at this pointer.
    NoJsonValueFound { json_pointer: String },
    /// The body was announced as text but is not valid UTF-8.
    TextBodyNotUtf8,
    /// The cookie jar's lock was poisoned by an earlier panic.
    CookieJarPoisoned,
    /// The transport failed.
    Reqwest(reqwest::Error),
    /// The body is not JSON as announced, or does not fit the requested type.
    SerdeJson(serde_json::Error),
}

} // verus!
