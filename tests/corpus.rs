use keccak_vectors::primitives::{
    binary_ff1_encrypt, blake3_xof, cshake128, cshake256, k12, kmac128, kmac256, parallel_hash128,
    parallel_hash256, tuple_hash128, tuple_hash256, Ff1Error,
};
use keccak_vectors::record::{Family, TestCase, TestCases};
use keccak_vectors::sweep::{corpus, generate, random};

fn hex(b: &[u8]) -> String {
    b.iter().map(|x| format!("{:02x}", x)).collect()
}

fn opt<'a>(o: &'a Option<Vec<u8>>) -> Option<&'a [u8]> {
    o.as_ref().map(|v| v.as_slice())
}

fn replay(t: &TestCase) -> Vec<u8> {
    let n = t.exp.len();
    let key = t.key.clone().unwrap_or_default();
    match t.fn_name {
        Family::Cshake128 => cshake128(&t.data, n, opt(&t.nist_fn), opt(&t.personalization)),
        Family::Cshake256 => cshake256(&t.data, n, opt(&t.nist_fn), opt(&t.personalization)),
        Family::Kmac128 => kmac128(&key, &t.data, n, opt(&t.personalization)),
        Family::Kmac256 => kmac256(&key, &t.data, n, opt(&t.personalization)),
        Family::K12 => k12(&t.data, n, opt(&t.personalization)),
        Family::Blake3 => blake3_xof(&t.data, n),
        Family::BinaryFf1 => binary_ff1_encrypt(&key, &t.data).unwrap(),
        Family::Parallel128 => parallel_hash128(&t.data, t.block_len.unwrap(), n, opt(&t.personalization)),
        Family::Parallel256 => parallel_hash256(&t.data, t.block_len.unwrap(), n, opt(&t.personalization)),
        Family::Tuple128 | Family::Tuple256 => {
            let elems: Vec<&[u8]> = (0..t.data.len()).map(|i| &t.data[..i]).collect();
            if t.fn_name == Family::Tuple128 {
                tuple_hash128(&elems, n, opt(&t.personalization))
            } else {
                tuple_hash256(&elems, n, opt(&t.personalization))
            }
        }
    }
}

#[test]
fn random_is_deterministic_and_seeded() {
    let a = random(1, 64);
    assert_eq!(a.len(), 64);
    assert_eq!(a, random(1, 64));
    assert_ne!(a, random(2, 64));
    assert_eq!(random(1, 16), a[..16].to_vec());
}

#[test]
fn record_counts_per_index() {
    assert_eq!(corpus(0).v.len(), 0);
    assert_eq!(corpus(1).v.len(), 51);
    assert_eq!(corpus(2).v.len(), 51 + 61);
}

#[test]
fn cshake128_empty_everything_record() {
    let c = corpus(1);
    let t = &c.v[0];
    assert_eq!(t.fn_name, Family::Cshake128);
    assert_eq!(t.fn_name.tag(), "cshake128");
    assert!(t.data.is_empty());
    assert_eq!(hex(&t.exp), "7f9c2ba4e88f827d616045507605853e");
    assert_eq!(t.nist_fn, Some(vec![]));
    assert_eq!(t.personalization, Some(vec![]));
    assert_eq!(t.key, None);
    assert_eq!(t.block_len, None);
}

#[test]
fn tuple_zero_elements_every_index() {
    let count = 4;
    let c = corpus(count);
    let zero: Vec<&TestCase> = c
        .v
        .iter()
        .filter(|t| {
            t.fn_name == Family::Tuple128
                && t.data.is_empty()
                && t.exp.len() == 16
                && t.personalization == Some(vec![])
        })
        .collect();
    // one empty-tuple call per index, plus the empty-input and empty-customization calls of index 0
    assert_eq!(zero.len(), count + 2);
    for t in &zero {
        assert_eq!(t.exp, zero[0].exp);
    }
}

#[test]
fn parallel_block_length_sweep() {
    let c = corpus(5);
    let msg = random(1, 4096);
    let found: Vec<&TestCase> = c
        .v
        .iter()
        .filter(|t| t.fn_name == Family::Parallel128 && t.data == msg[..4].to_vec() && t.exp.len() == 16)
        .collect();
    let blocks: Vec<u64> = found.iter().map(|t| t.block_len.unwrap()).collect();
    assert_eq!(blocks, vec![8, 16, 32, 64, 128]);
    assert_ne!(found[0].exp, found[1].exp);
}

#[test]
fn determinism() {
    assert_eq!(corpus(3), corpus(3));
    let a = random(1, 100);
    let b = random(2, 100);
    let d = random(3, 100);
    assert_eq!(generate(&a, &b, &d, 3), generate(&a, &b, &d, 3));
}

#[test]
fn field_presence() {
    let c = corpus(3);
    for t in &c.v {
        let f = t.fn_name;
        let name = matches!(f, Family::Cshake128 | Family::Cshake256);
        let key = matches!(f, Family::Kmac128 | Family::Kmac256 | Family::BinaryFf1);
        let cust = !matches!(f, Family::Blake3 | Family::BinaryFf1);
        let block = matches!(f, Family::Parallel128 | Family::Parallel256);
        assert_eq!(t.nist_fn.is_some(), name);
        assert_eq!(t.key.is_some(), key);
        assert_eq!(t.personalization.is_some(), cust);
        assert_eq!(t.block_len.is_some(), block);
    }
}

#[test]
fn length_correspondence() {
    let c = corpus(20);
    let mut seen_19 = 0;
    for t in &c.v {
        let n = t.exp.len();
        assert!(n == 16 || (1..20).contains(&n));
        if n == 19 {
            seen_19 += 1;
        }
    }
    // output-length calls of index 19: two cSHAKE, two KMAC, K12, BLAKE3, two ParallelHash, two TupleHash
    assert_eq!(seen_19, 10);
}

#[test]
fn prefix_consistency() {
    let c = corpus(6);
    let at = |i: usize| -> &[TestCase] {
        let start = if i == 0 { 0 } else { 51 + 61 * (i - 1) };
        let len = if i == 0 { 51 } else { 61 };
        &c.v[start..start + len]
    };
    let (a, b) = (at(2), at(5));
    for (x, y) in a.iter().zip(b.iter()) {
        assert_eq!(x.fn_name, y.fn_name);
        assert_eq!(x.block_len, y.block_len);
        assert!(y.data.starts_with(&x.data));
        let p = |o: &Option<Vec<u8>>| o.clone().unwrap_or_default();
        assert!(p(&y.nist_fn).starts_with(&p(&x.nist_fn)));
        assert!(p(&y.personalization).starts_with(&p(&x.personalization)));
        assert!(p(&y.key).starts_with(&p(&x.key)));
    }
}

#[test]
fn replay_reproduces_expected_output() {
    let c = corpus(4);
    for t in &c.v {
        assert_eq!(replay(t), t.exp);
    }
}

#[test]
fn ff1_record() {
    let mut c = TestCases::new();
    assert_eq!(c.binary_ff1(&[1u8; 32], &[1, 2]), Err(Ff1Error::DataLength));
    assert!(c.v.is_empty());
    assert_eq!(c.binary_ff1(&[1u8; 32], &[1, 2, 3, 4]), Ok(()));
    assert_eq!(c.v.len(), 1);
    let t = &c.v[0];
    assert_eq!(t.key, Some(vec![1u8; 32]));
    assert_eq!(t.personalization, None);
    assert_eq!(t.exp.len(), 4);
    assert_eq!(replay(t), t.exp);
}

#[test]
fn tuple_record_hashes_prefixes() {
    let mut c = TestCases::new();
    c.tuple256(&[9, 8, 7], 16, &[]);
    let e0: &[u8] = &[];
    let e1: &[u8] = &[9];
    let e2: &[u8] = &[9, 8];
    assert_eq!(c.v[0].exp, tuple_hash256(&[e0, e1, e2], 16, None));
    assert_eq!(c.v[0].data, vec![9, 8, 7]);
}
