//! The SHA-256 digest of a text, written as lowercase hexadecimal.

use sha2::{Digest, Sha256};
use vstd::prelude::*;

verus! {

/// The lowercase hexadecimal SHA-256 digest of the UTF-8 encoding of `text`.
pub uninterp spec fn sha256_hex(text: Seq<char>) -> Seq<char>;

/// Relies on `sha2::Sha256::digest` over the UTF-8 bytes of `text`, rendered through
/// `generic_array`'s `LowerHex`: the result depends on the characters of `text` alone.
#[verifier::external_body]
pub(crate) fn sha256_hex_of(text: &str) -> (r: String)
    ensures
        r@ == sha256_hex(text@),
{
    format!("{:x}", Sha256::digest(text.as_bytes()))
}

} // verus!
