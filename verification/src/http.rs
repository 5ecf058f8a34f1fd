//! Request correlation over HTTP.

use vstd::prelude::*;

verus! {

/// Header that carries the request id across services.
pub const X_REQUEST_ID: &'static str = "x-request-id";

} // verus!
