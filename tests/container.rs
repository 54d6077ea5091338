use atma_verify::error::VerifyError;
use atma_verify::header::AtmaHeader;
use atma_verify::layout::{read_u64_le, HEADER_SIZE, MAGIC_NUMBER};
use atma_verify::verify::{check_digest, verify_container, verify_payload};
use sha2::{Digest, Sha512};

fn sha512_bytes(data: &[u8]) -> Vec<u8> {
    Sha512::digest(data).to_vec()
}

fn header_bytes(magic: u64, payload_size: u64, hash: &[u8]) -> Vec<u8> {
    let mut h = Vec::new();
    h.extend_from_slice(&magic.to_le_bytes());
    h.push(3u8);
    h.extend_from_slice(&0x0102030405060708u64.to_le_bytes());
    h.extend_from_slice(&0x1112131415161718u64.to_le_bytes());
    h.extend_from_slice(&payload_size.to_le_bytes());
    h.extend_from_slice(hash);
    h.extend_from_slice(&[0xAAu8; 12]);
    h.extend_from_slice(&[0x55u8; 147]);
    assert_eq!(h.len(), 256);
    h
}

fn container(payload_size: u64, hash: &[u8], payload: &[u8]) -> Vec<u8> {
    let mut f = header_bytes(MAGIC_NUMBER, payload_size, hash);
    f.extend_from_slice(payload);
    f
}

#[test]
fn five_byte_payload_verifies() {
    let payload = [1u8, 2, 3, 4, 5];
    let f = container(5, &sha512_bytes(&payload), &payload);
    assert_eq!(verify_container(&f), Ok(()));
}

#[test]
fn changed_last_byte_is_digest_mismatch() {
    let f = container(5, &sha512_bytes(&[1u8, 2, 3, 4, 5]), &[1u8, 2, 3, 4, 6]);
    assert_eq!(verify_container(&f), Err(VerifyError::DigestMismatch));
}

#[test]
fn missing_byte_is_size_mismatch() {
    let f = container(5, &sha512_bytes(&[1u8, 2, 3, 4, 5]), &[1u8, 2, 3, 4]);
    assert_eq!(
        verify_container(&f),
        Err(VerifyError::SizeMismatch { declared: 5, actual: 4 })
    );
}

#[test]
fn empty_payload_round_trip() {
    let f = container(0, &sha512_bytes(&[]), &[]);
    assert_eq!(f.len(), HEADER_SIZE);
    assert_eq!(verify_container(&f), Ok(()));
}

#[test]
fn large_payload_round_trip() {
    let payload: Vec<u8> = (0..5000u32).map(|i| (i * 7 % 251) as u8).collect();
    let f = container(5000, &sha512_bytes(&payload), &payload);
    assert_eq!(verify_container(&f), Ok(()));
}

#[test]
fn every_magic_bit_flip_is_bad_magic() {
    let payload = [9u8, 8, 7];
    let good = container(3, &sha512_bytes(&payload), &payload);
    for bit in 0..64u32 {
        let mut f = good.clone();
        f[(bit / 8) as usize] ^= 1u8 << (bit % 8);
        assert_eq!(
            verify_container(&f),
            Err(VerifyError::BadMagic { found: MAGIC_NUMBER ^ (1u64 << bit) })
        );
    }
}

#[test]
fn bad_magic_wins_over_bad_size() {
    let mut f = header_bytes(0x41, 99, &[0u8; 64]);
    f.push(1);
    assert_eq!(verify_container(&f), Err(VerifyError::BadMagic { found: 0x41 }));
}

#[test]
fn size_checked_before_digest() {
    let payload = [1u8, 2, 3, 4, 5, 6];
    let f = container(5, &sha512_bytes(&payload), &payload);
    assert_eq!(
        verify_container(&f),
        Err(VerifyError::SizeMismatch { declared: 5, actual: 6 })
    );
}

#[test]
fn every_payload_byte_flip_is_digest_mismatch() {
    let payload: Vec<u8> = (0..40u8).collect();
    let good = container(40, &sha512_bytes(&payload), &payload);
    assert_eq!(verify_container(&good), Ok(()));
    for i in HEADER_SIZE..good.len() {
        let mut f = good.clone();
        f[i] ^= 0x01;
        assert_eq!(verify_container(&f), Err(VerifyError::DigestMismatch));
    }
}

#[test]
fn short_files_are_truncated_headers() {
    for n in [0usize, 1, 8, 255] {
        let f = vec![0u8; n];
        assert_eq!(
            verify_container(&f),
            Err(VerifyError::TruncatedHeader { available: n })
        );
    }
    let full = container(0, &sha512_bytes(&[]), &[]);
    assert_eq!(
        verify_container(&full[..255]),
        Err(VerifyError::TruncatedHeader { available: 255 })
    );
}

#[test]
fn header_fields_decode_little_endian() {
    let hash: Vec<u8> = (0..64u8).collect();
    let mut bytes = header_bytes(MAGIC_NUMBER, 0x2122232425262728, &hash);
    bytes.extend_from_slice(&[7u8, 7, 7]);
    let h = AtmaHeader::from_bytes(&bytes).unwrap();
    assert_eq!(h.magic, MAGIC_NUMBER);
    assert_eq!(h.version, 3);
    assert_eq!(h.sequence_id, 0x0102030405060708);
    assert_eq!(h.source_offset, 0x1112131415161718);
    assert_eq!(h.payload_size, 0x2122232425262728);
    assert_eq!(h.payload_hash, hash);
    assert_eq!(h.iv_nonce, vec![0xAAu8; 12]);
    assert_eq!(h.reserved, vec![0x55u8; 147]);
}

#[test]
fn magic_is_read_little_endian() {
    let mut f = vec![0u8; 256];
    f[..8].copy_from_slice(&MAGIC_NUMBER.to_be_bytes());
    assert_eq!(
        AtmaHeader::from_bytes(&f).unwrap_err(),
        VerifyError::BadMagic { found: MAGIC_NUMBER.swap_bytes() }
    );
}

#[test]
fn read_u64_le_at_offset() {
    let b = [0xFFu8, 0x01, 0x02, 0x03, 0x04, 0x05, 0x06, 0x07, 0x08];
    assert_eq!(read_u64_le(&b, 1), 0x0807060504030201);
    assert_eq!(read_u64_le(&b, 0), 0x07060504030201FF);
}

#[test]
fn verify_payload_checks_length_then_digest() {
    let payload = [1u8, 2, 3, 4, 5];
    let f = container(5, &sha512_bytes(&payload), &[]);
    let h = AtmaHeader::from_bytes(&f).unwrap();
    assert_eq!(verify_payload(&h, &payload), Ok(()));
    assert_eq!(verify_payload(&h, &[1u8, 2, 3, 4, 6]), Err(VerifyError::DigestMismatch));
    assert_eq!(
        verify_payload(&h, &[]),
        Err(VerifyError::SizeMismatch { declared: 5, actual: 0 })
    );
}

#[test]
fn payload_equal_to_its_recorded_hash_is_rejected() {
    let payload: Vec<u8> = (100..164u8).collect();
    let f = container(64, &payload, &payload);
    assert_eq!(verify_container(&f), Err(VerifyError::DigestMismatch));
}

#[test]
fn check_digest_compares_every_byte() {
    let hash = sha512_bytes(b"abc");
    let h = AtmaHeader::from_bytes(&header_bytes(MAGIC_NUMBER, 3, &hash)).unwrap();
    assert_eq!(check_digest(&h, &hash), Ok(()));
    let mut other = hash.clone();
    other[63] ^= 0x80;
    assert_eq!(check_digest(&h, &other), Err(VerifyError::DigestMismatch));
    assert_eq!(check_digest(&h, &hash[..63]), Err(VerifyError::DigestMismatch));
}

#[test]
fn known_sha512_of_abc_verifies() {
    let hex = "ddaf35a193617abacc417349ae20413112e6fa4e89a97ea20a9eeee64b55d39a\
               2192992a274fc1a836ba3c23a3feebbd454d4423643ce80e2a9ac94fa54ca49f";
    let hash: Vec<u8> = (0..64)
        .map(|i| u8::from_str_radix(&hex[2 * i..2 * i + 2], 16).unwrap())
        .collect();
    let f = container(3, &hash, b"abc");
    assert_eq!(verify_container(&f), Ok(()));
    let g = container(3, &hash, b"abd");
    assert_eq!(verify_container(&g), Err(VerifyError::DigestMismatch));
}
