//! SHA-512 over payload bytes.

use crate::layout::HASH_LEN;
use vstd::prelude::*;

verus! {

/// The SHA-512 digest of `data`.
pub uninterp spec fn sha512_of(data: Seq<u8>) -> Seq<u8>;

/// Relies on `sha2::Sha512` through `digest::Digest::digest`: it returns the
/// 64-byte SHA-512 digest of its input, which depends on the input alone.
#[verifier::external_body]
pub(crate) fn sha512(data: &[u8]) -> (r: Vec<u8>)
    ensures
        r@ == sha512_of(data@),
        r@.len() == HASH_LEN,
{
    <sha2::Sha512 as sha2::Digest>::digest(data).to_vec()
}

} // verus!
