//! Shared ownership of published payloads.
//!
//! A published value is handed to the retained slot and to every subscriber
//! without being copied: all of them hold the same allocation.

use std::sync::Arc;
use vstd::prelude::*;

verus! {

/// Calls `Arc::clone`: another handle on the same allocation, so the new
/// handle holds the value the old one holds.
#[verifier::external_body]
pub(crate) fn share<T: ?Sized>(value: &Arc<T>) -> (handle: Arc<T>)
    ensures
        handle == *value,
{
    Arc::clone(value)
}

/// Calls `Arc::<[u8]>::from` on a vector: the bytes move into a shared slice
/// that holds the same bytes in the same order.
#[verifier::external_body]
pub(crate) fn share_bytes(bytes: Vec<u8>) -> (shared: Arc<[u8]>)
    ensures
        shared@ == bytes@,
{
    Arc::from(bytes)
}

} // verus!
