//! Payload verification: declared length first, then the digest.

use crate::digest::{sha512, sha512_of};
use crate::error::VerifyError;
use crate::header::{decode_header, header_fault, AtmaHeader};
use crate::layout::{HASH_LEN, HEADER_SIZE};
use vstd::prelude::*;
use vstd::slice::slice_subrange;

verus! {

/// The verdict on a payload whose digest is `computed`, against a header that
/// records `expected`.
pub open spec fn digest_verdict(expected: Seq<u8>, computed: Seq<u8>) -> Result<(), VerifyError> {
    if computed == expected {
        Ok(())
    } else {
        Err(VerifyError::DigestMismatch)
    }
}

/// The verdict on `payload` against a header that declares `declared` bytes
/// with digest `expected`. A length that differs decides before any digest.
pub open spec fn payload_verdict(declared: u64, expected: Seq<u8>, payload: Seq<u8>) -> Result<
    (),
    VerifyError,
> {
    if payload.len() != declared {
        Err(VerifyError::SizeMismatch { declared, actual: payload.len() as u64 })
    } else {
        digest_verdict(expected, sha512_of(payload))
    }
}

/// The verdict on a whole container file: its header first, then its payload,
/// which is everything after the header.
pub open spec fn container_verdict(file: Seq<u8>) -> Result<(), VerifyError> {
    match header_fault(file) {
        Some(e) => Err(e),
        None => {
            let h = decode_header(file);
            payload_verdict(h.payload_size, h.payload_hash, file.subrange(HEADER_SIZE as int, file.len() as int))
        },
    }
}

/// Compares a computed digest with the one that `header` records, all bytes.
pub fn check_digest(header: &AtmaHeader, computed: &[u8]) -> (r: Result<(), VerifyError>)
    ensures
        r == digest_verdict(header.payload_hash@, computed@),
{
    let expected = &header.payload_hash;
    if computed.len() != expected.len() {
        return Err(VerifyError::DigestMismatch);
    }
    let mut i: usize = 0;
    while i < computed.len()
        invariant
            expected@ == header.payload_hash@,
            computed@.len() == expected@.len(),
            i <= computed@.len(),
            forall|k: int| 0 <= k < i ==> computed@[k] == expected@[k],
        decreases computed@.len() - i,
    {
        if computed[i] != expected[i] {
            proof {
                assert(computed@[i as int] != expected@[i as int]);
            }
            return Err(VerifyError::DigestMismatch);
        }
        i += 1;
    }
    proof {
        assert(computed@ =~= expected@);
    }
    Ok(())
}

/// Checks `payload` against `header`: its length must equal the declared
/// `payload_size`, and only then is its SHA-512 digest compared with the
/// recorded one.
pub fn verify_payload(header: &AtmaHeader, payload: &[u8]) -> (r: Result<(), VerifyError>)
    ensures
        r == payload_verdict(header.payload_size, header.payload_hash@, payload@),
{
    let actual = payload.len() as u64;
    if actual != header.payload_size {
        return Err(VerifyError::SizeMismatch { declared: header.payload_size, actual });
    }
    let computed = sha512(payload);
    check_digest(header, computed.as_slice())
}

/// Verifies a whole container file held in memory: decodes the header from
/// its first `HEADER_SIZE` bytes and checks the rest as the payload.
pub fn verify_container(file: &[u8]) -> (r: Result<(), VerifyError>)
    ensures
        r == container_verdict(file@),
{
    let header = match AtmaHeader::from_bytes(file) {
        Ok(h) => h,
        Err(e) => return Err(e),
    };
    let payload = slice_subrange(file, HEADER_SIZE, file.len());
    verify_payload(&header, payload)
}

} // verus!
