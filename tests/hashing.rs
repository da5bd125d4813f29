use ledger::hashing::{compute_batch_hash, compute_hash, constant_time_compare, verify_batch_hash};
use ledger::state::Address;

#[test]
fn test_compute_hash() {
    let data = b"test data";
    let hash = compute_hash(data);
    assert_eq!(hash.len(), 32);
    let hash2 = compute_hash(data);
    assert_eq!(hash, hash2);
}

#[test]
fn test_compute_batch_hash() {
    let program_id = Address::new([7u8; 32]);
    let batch_id = 12345u64;
    let data = b"trade data";

    let hash = compute_batch_hash(&program_id, batch_id, data);
    assert_eq!(hash.len(), 32);

    let hash2 = compute_batch_hash(&program_id, batch_id, data);
    assert_eq!(hash, hash2);

    let hash3 = compute_batch_hash(&program_id, batch_id + 1, data);
    assert_ne!(hash, hash3);

    let other_program = Address::new([8u8; 32]);
    let hash4 = compute_batch_hash(&other_program, batch_id, data);
    assert_ne!(hash, hash4);
}

#[test]
fn test_verify_batch_hash() {
    let program_id = Address::new([7u8; 32]);
    let batch_id = 12345u64;
    let data = b"trade data";

    let hash = compute_batch_hash(&program_id, batch_id, data);

    assert!(verify_batch_hash(&program_id, batch_id, data, &hash));
    assert!(!verify_batch_hash(&program_id, batch_id + 1, data, &hash));
    assert!(!verify_batch_hash(&program_id, batch_id, b"wrong data", &hash));
}

#[test]
fn test_constant_time_compare() {
    let a = [1u8; 32];
    let b = [1u8; 32];
    let c = [2u8; 32];
    assert!(constant_time_compare(&a, &b));
    assert!(!constant_time_compare(&a, &c));
}

#[test]
fn sha256_known_digest() {
    // SHA-256("abc")
    let expected: [u8; 32] = [
        0xba, 0x78, 0x16, 0xbf, 0x8f, 0x01, 0xcf, 0xea, 0x41, 0x41, 0x40, 0xde, 0x5d, 0xae, 0x22, 0x23,
        0xb0, 0x03, 0x61, 0xa3, 0x96, 0x17, 0x7a, 0x9c, 0xb4, 0x10, 0xff, 0x61, 0xf2, 0x00, 0x15, 0xad,
    ];
    assert_eq!(compute_hash(b"abc"), expected);
}

#[test]
fn batch_hash_differs_from_plain_hash_and_single_field_changes() {
    let program_id = Address::new([7u8; 32]);
    let data = b"trade data";
    let hash = compute_batch_hash(&program_id, 1, data);
    assert_ne!(hash, compute_hash(data));
    let mut other = [7u8; 32];
    other[31] = 6;
    assert!(!verify_batch_hash(&Address::new(other), 1, data, &hash));
    let mut tampered = hash;
    tampered[0] ^= 1;
    assert!(!verify_batch_hash(&program_id, 1, data, &tampered));
    assert!(constant_time_compare(&hash, &hash));
    let mut last = hash;
    last[31] ^= 0x80;
    assert!(!constant_time_compare(&hash, &last));
}
