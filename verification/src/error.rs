//! Errors that the adapters report to the application layer.

use vstd::prelude::*;

verus! {

/// An error reported to the application layer.
#[derive(Debug, Clone, PartialEq, Eq)]
pub enum ApplicationError {
    /// An external service failed or answered with an error.
    ExternalService(String),
    /// The inference engine failed.
    Inference(String),
    /// A rate limit was hit.
    RateLimited,
    /// An internal failure.
    Internal(String),
    /// The configuration is wrong.
    Configuration(String),
    /// Something asked for does not exist.
    NotFound(String),
    /// Authentication or authorisation failed.
    NotAuthorized(String),
    /// The operation is not valid for its input.
    InvalidOperation(String),
}

} // verus!
