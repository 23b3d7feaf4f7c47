//! Fresh random bytes, from the thread-local generator of the `rand` crate.

use vstd::prelude::*;

verus! {

/// Calls `rand::fill` on sixteen bytes. Trusted: nothing is claimed of the
/// bytes; two calls may differ.
#[verifier::external_body]
pub(crate) fn random_session_id() -> [u8; 16] {
    let mut id = [0u8; 16];
    rand::fill(&mut id);
    id
}

/// Calls `rand::random_iter::<u8>` and takes `count` bytes of it. Trusted:
/// the result has `count` bytes; nothing is claimed of their values.
#[verifier::external_body]
pub(crate) fn random_bytes(count: usize) -> (bytes: Vec<u8>)
    ensures
        bytes@.len() == count,
{
    rand::random_iter::<u8>().take(count).collect()
}

} // verus!
