//! Standard base64 (RFC 4648 alphabet, with padding), as implemented by the
//! `base64` crate's `STANDARD` engine.

use base64::Engine;
use vstd::prelude::*;

verus! {

/// The standard base64 text of a byte string.
pub uninterp spec fn base64_of(data: Seq<u8>) -> Seq<char>;

/// The bytes that a text stands for in standard base64, if it is well formed.
pub uninterp spec fn base64_bytes(text: Seq<char>) -> Option<Seq<u8>>;

#[verifier::external_type_specification]
#[verifier::external_body]
pub struct ExDecodeError(base64::DecodeError);

/// Calls `base64::engine::general_purpose::STANDARD.encode`. Trusted: the
/// result is the base64 text of `data`, a function of the bytes alone, and
/// decoding that text with the same engine gives `data` back, as the crate's
/// own round-trip tests hold of `STANDARD`. The call panics only when the
/// encoded length overflows `usize`, which `requires` rules out.
#[verifier::external_body]
pub(crate) fn base64_encode(data: &[u8]) -> (text: String)
    requires
        data@.len() <= isize::MAX,
    ensures
        text@ == base64_of(data@),
        base64_bytes(text@) == Some(data@),
{
    base64::engine::general_purpose::STANDARD.encode(data)
}

/// Calls `base64::engine::general_purpose::STANDARD.decode`. Trusted: the
/// result depends on the text alone; it is `Ok` with the decoded bytes exactly
/// when the text is well-formed base64.
#[verifier::external_body]
pub(crate) fn base64_decode(text: &str) -> (decoded: Result<Vec<u8>, base64::DecodeError>)
    ensures
        match decoded {
            Ok(bytes) => base64_bytes(text@) == Some(bytes@),
            Err(_) => base64_bytes(text@) is None,
        },
{
    base64::engine::general_purpose::STANDARD.decode(text)
}

} // verus!
