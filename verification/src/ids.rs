//! Fresh identifiers for new records.

use vstd::prelude::*;

verus! {

/// A fresh random identifier: `uuid::Uuid::new_v4()` written with
/// `to_string`, which gives the hyphenated lower-case form of 36 characters.
///
/// Which identifier comes out is left open: it is random, so two calls may
/// differ and nothing is claimed of the characters.
#[verifier::external_body]
pub(crate) fn fresh_uuid() -> (s: String)
    ensures
        s@.len() == 36,
{
    uuid::Uuid::new_v4().to_string()
}

} // verus!
