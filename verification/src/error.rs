//! What can go wrong.

use vstd::prelude::*;

verus! {

/// The error type of `serde_json`, which is carried along unread.
#[verifier::external_type_specification]
#[verifier::external_body]
pub struct ExJsonError(serde_json::Error);

/// Why an operation failed.
#[derive(Debug)]
pub enum AgentError {
    /// The provider is not configured.
    Config { message: String },
    /// A reply is not JSON.
    Json(serde_json::Error),
}

} // verus!
