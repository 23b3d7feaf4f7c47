//! SHA-512, as computed by the `sha2` crate.

use sha2::Digest;
use vstd::prelude::*;

verus! {

/// The SHA-512 digest of a byte string.
pub uninterp spec fn sha512_of(data: Seq<u8>) -> Seq<u8>;

/// Calls `sha2::Sha512::digest`. Trusted: the result is the SHA-512 digest of
/// `data`, a function of the bytes alone, and it is 64 bytes long.
#[verifier::external_body]
pub(crate) fn sha512(data: &[u8]) -> (hash: Vec<u8>)
    ensures
        hash@ == sha512_of(data@),
        hash@.len() == 64,
{
    sha2::Sha512::digest(data).to_vec()
}

} // verus!
