use lobs::seed::generate_seed;

#[test]
fn seed_short_buffer_defined() {
    // A 10-byte entropy buffer must not fail and must give a defined value:
    // window offset 0, bytes past the buffer read as zero.
    let entropy: Vec<u8> = vec![1, 2, 3, 4, 5, 6, 7, 8, 9, 10];
    let owner: Vec<u8> = vec![0u8; 32];
    let seed = generate_seed(&entropy, &owner, 0, 0);
    assert_eq!(seed.len(), 32);
    let mut expected = vec![0u8; 32];
    expected[..10].copy_from_slice(&entropy);
    assert_eq!(seed, expected);
}

#[test]
fn seed_empty_buffer_defined() {
    let entropy: Vec<u8> = Vec::new();
    let owner: Vec<u8> = vec![0u8; 32];
    let seed = generate_seed(&entropy, &owner, 0, 0);
    assert_eq!(seed, vec![0u8; 32]);
}

#[test]
fn seed_deterministic() {
    let entropy: Vec<u8> = (0u8..100).collect();
    let owner: Vec<u8> = vec![9u8; 32];
    let a = generate_seed(&entropy, &owner, 123456, 7);
    let b = generate_seed(&entropy, &owner, 123456, 7);
    assert_eq!(a, b);
}

#[test]
fn seed_mixes_timestamp_and_index() {
    // Empty entropy: the seed is exactly the XOR of the identity with the
    // little-endian timestamp (bytes 0-7) and index (bytes 8-15).
    let entropy: Vec<u8> = Vec::new();
    let owner: Vec<u8> = vec![0u8; 32];
    let ts: i64 = 0x0102030405060708;
    let seed = generate_seed(&entropy, &owner, ts, 1);
    let mut expected = vec![0u8; 32];
    expected[..8].copy_from_slice(&ts.to_le_bytes());
    expected[8] = 1;
    assert_eq!(seed, expected);
}

#[test]
fn seed_window_offset_from_index() {
    // 44-byte buffer: the window base is 44 - 32 = 12. Index 0 reads the
    // window at offset 0; index 1 reads it at offset (1*8) % 12 = 8.
    let entropy: Vec<u8> = (0u8..44).collect();
    let owner: Vec<u8> = vec![0u8; 32];
    let seed0 = generate_seed(&entropy, &owner, 0, 0);
    assert_eq!(seed0[0], 0);
    assert_eq!(seed0[31], 31);
    let seed1 = generate_seed(&entropy, &owner, 0, 1);
    assert_eq!(seed1[0], 8);
    // Bytes 8-15 carry the index XOR: byte 8 is entropy 16 ^ 1.
    assert_eq!(seed1[8], 16 ^ 1);
    // A huge index still gives a defined 32-byte seed.
    let seed_big = generate_seed(&entropy, &owner, 0, u64::MAX);
    assert_eq!(seed_big.len(), 32);
}
