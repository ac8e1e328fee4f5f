//! The token pair that a successful login returns.

use vstd::prelude::*;

verus! {

/// The bearer tokens handed out by the store on login: the access token used
/// on every request, and the refresh token kept for later.
pub struct Tokens {
    pub access: String,
    pub refresh: String,
}

} // verus!
