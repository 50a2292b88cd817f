//! The error of the app-key export. Activation logs it and goes on.
use vstd::prelude::*;

verus! {

/// The error type of serde_json.
#[verifier::external_type_specification]
#[verifier::external_body]
pub struct ExJsonError(serde_json::Error);

/// The error type of URL parsing.
#[verifier::external_type_specification]
#[verifier::external_body]
pub struct ExUrlParseError(url::ParseError);

/// Why an app-key export did not go through. Both the transport error and
/// the service error of the app-key listing surface as `KeyList`.
#[derive(Debug)]
pub enum ExportError {
    /// Listing the app-keys over the bus failed; the message says why.
    KeyList(String),
    /// The admin base URL did not parse.
    Url(url::ParseError),
    /// The Market client's rebasing rule rejected the URL.
    Rebase(ya_client::Error),
    /// The POST, or reading its JSON response, failed; the message says why.
    Post(String),
}

} // verus!
