//! Subscription tokens.

use vstd::prelude::*;

verus! {

/// Calls `unique_token::Unique::new` and returns the number behind the new
/// token, as `u64::from` gives it. The crate promises that no two tokens made
/// in one process are equal; that promise relates calls to each other and is
/// not part of this contract, which claims nothing. The call panics once
/// `u64::MAX` tokens have been made in the process.
#[verifier::external_body]
pub(crate) fn mint_token() -> (token: u64) {
    u64::from(&unique_token::Unique::new())
}

} // verus!
