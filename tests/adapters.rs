use keccak_vectors::primitives::{
    binary_ff1_encrypt, blake3_xof, cshake128, cshake256, k12, kmac128, kmac256, parallel_hash128,
    parallel_hash256, tuple_hash128, tuple_hash256, Ff1Error,
};

fn hex(b: &[u8]) -> String {
    b.iter().map(|x| format!("{:02x}", x)).collect()
}

fn seq_bytes(n: u8) -> Vec<u8> {
    (0..n).collect()
}

#[test]
fn cshake128_empty_parameters_is_shake128() {
    let out = cshake128(&[], 16, Some(&[]), Some(&[]));
    assert_eq!(hex(&out), "7f9c2ba4e88f827d616045507605853e");
    let absent = cshake128(&[], 16, None, None);
    assert_eq!(out, absent);
}

#[test]
fn cshake128_published_sample() {
    let out = cshake128(&[0, 1, 2, 3], 32, Some(b""), Some(b"Email Signature"));
    assert_eq!(hex(&out), "c1c36925b6409a04f1b504fcbca9d82b4017277cb5ed2b2065fc1d3814d5aaf5");
}

#[test]
fn cshake256_differs_from_cshake128() {
    let a = cshake128(&[1, 2, 3], 16, Some(b"n"), Some(b"c"));
    let b = cshake256(&[1, 2, 3], 16, Some(b"n"), Some(b"c"));
    assert_eq!(b.len(), 16);
    assert_ne!(a, b);
}

#[test]
fn cshake_name_changes_output() {
    let a = cshake256(&[], 16, Some(b"a"), None);
    let b = cshake256(&[], 16, None, None);
    assert_ne!(a, b);
}

#[test]
fn kmac128_published_sample() {
    let key: Vec<u8> = (0x40..0x60).collect();
    let out = kmac128(&key, &[0, 1, 2, 3], 32, Some(b""));
    assert_eq!(hex(&out), "e5780b0d3ea6f7d3a429c5706aa43a00fadbd7d49628839e3187243f456ee14e");
}

#[test]
fn kmac256_key_changes_output() {
    let a = kmac256(&[1], &[], 16, None);
    let b = kmac256(&[], &[], 16, None);
    assert_eq!(a.len(), 16);
    assert_ne!(a, b);
}

#[test]
fn tuple_hash128_published_sample() {
    let e1: &[u8] = &[0, 1, 2];
    let e2: &[u8] = &[0x10, 0x11, 0x12, 0x13, 0x14, 0x15];
    let out = tuple_hash128(&[e1, e2], 32, None);
    assert_eq!(hex(&out), "c5d8786c1afb9b82111ab34b65b2c0048fa64e6d48e263264ce1707d3ffc8ed1");
}

#[test]
fn tuple_hash_elements_are_not_concatenated() {
    let a: &[u8] = &[1, 2];
    let b: &[u8] = &[3];
    let split = tuple_hash256(&[a, b], 16, None);
    let joined = tuple_hash256(&[&[1u8, 2, 3][..]], 16, None);
    assert_ne!(split, joined);
}

#[test]
fn tuple_hash_zero_elements() {
    let none: [&[u8]; 0] = [];
    let a = tuple_hash128(&none, 16, None);
    let b = tuple_hash128(&none, 16, Some(&[]));
    assert_eq!(a.len(), 16);
    assert_eq!(a, b);
    let one_empty = tuple_hash128(&[&[][..]], 16, None);
    assert_ne!(a, one_empty);
}

#[test]
fn parallel_hash128_published_sample() {
    let mut x = Vec::new();
    for base in [0x00u8, 0x10, 0x20] {
        for k in 0..8u8 {
            x.push(base + k);
        }
    }
    let out = parallel_hash128(&x, 8, 32, None);
    assert_eq!(hex(&out), "ba8dc1d1d979331d3f813603c67f72609ab5e44b94a0b8f9af46514454a2b4f5");
}

#[test]
fn parallel_hash_block_length_matters() {
    let x = seq_bytes(64);
    let a = parallel_hash256(&x, 8, 16, None);
    let b = parallel_hash256(&x, 16, 16, None);
    assert_ne!(a, b);
}

#[test]
fn k12_empty_sample() {
    let out = k12(&[], 32, None);
    assert_eq!(hex(&out), "1ac2d450fc3b4205d19da7bfca1b37513c0803577ac7167f06fe2ce1f0ef39e5");
}

#[test]
fn blake3_empty_sample() {
    let out = blake3_xof(&[], 32);
    assert_eq!(hex(&out), "af1349b9f5f9a1a6a0404dea36dcc9499bcb25c9adc112b7cc9a93cae41f3262");
    assert_eq!(blake3_xof(&[], 0).len(), 0);
}

#[test]
fn output_length_is_requested_length() {
    for n in [0usize, 1, 15, 16, 17, 200] {
        assert_eq!(cshake128(&[], n, None, None).len(), n);
        assert_eq!(kmac128(&[], &[], n, None).len(), n);
        assert_eq!(parallel_hash128(&[], 8, n, None).len(), n);
        assert_eq!(k12(&[], n, None).len(), n);
        assert_eq!(blake3_xof(&[], n).len(), n);
    }
}

#[test]
fn ff1_key_length_error() {
    assert_eq!(binary_ff1_encrypt(&[0u8; 16], &[0u8; 8]), Err(Ff1Error::KeyLength));
}

#[test]
fn ff1_data_length_error() {
    assert_eq!(binary_ff1_encrypt(&[0u8; 32], &[0u8; 2]), Err(Ff1Error::DataLength));
}

#[test]
fn ff1_preserves_length() {
    let data = seq_bytes(10);
    let out = binary_ff1_encrypt(&[7u8; 32], &data).unwrap();
    assert_eq!(out.len(), data.len());
    assert_ne!(out, data);
    assert_eq!(binary_ff1_encrypt(&[7u8; 32], &data).unwrap(), out);
}
