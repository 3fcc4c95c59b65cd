//! Adapters over the hash and cipher primitives that the corpus exercises.
//!
//! Each primitive's output is named by an uninterpreted function of its
//! inputs: the primitives are external collaborators whose internals this
//! library does not restate. The adapters normalise absent parameters to the
//! empty byte string and fix the requested output length.
use vstd::prelude::*;
use tiny_keccak::Hasher;
use tiny_keccak::{CShake, Kmac, ParallelHash, TupleHash, KangarooTwelve};
use aes::Aes256;
use fpe::ff1::{BinaryNumeralString, FF1};

verus! {

/// Output of cSHAKE128 on (input, output bytes, function name, customization).
pub uninterp spec fn cshake128_of(input: Seq<u8>, out_len: nat, name: Seq<u8>, cust: Seq<u8>) -> Seq<u8>;

/// Output of cSHAKE256 on (input, output bytes, function name, customization).
pub uninterp spec fn cshake256_of(input: Seq<u8>, out_len: nat, name: Seq<u8>, cust: Seq<u8>) -> Seq<u8>;

/// Output of KMAC128 on (key, input, output bytes, customization).
pub uninterp spec fn kmac128_of(key: Seq<u8>, input: Seq<u8>, out_len: nat, cust: Seq<u8>) -> Seq<u8>;

/// Output of KMAC256 on (key, input, output bytes, customization).
pub uninterp spec fn kmac256_of(key: Seq<u8>, input: Seq<u8>, out_len: nat, cust: Seq<u8>) -> Seq<u8>;

/// Output of ParallelHash128 on (input, block bytes, output bytes, customization).
pub uninterp spec fn parallel128_of(input: Seq<u8>, block_len: nat, out_len: nat, cust: Seq<u8>) -> Seq<u8>;

/// Output of ParallelHash256 on (input, block bytes, output bytes, customization).
pub uninterp spec fn parallel256_of(input: Seq<u8>, block_len: nat, out_len: nat, cust: Seq<u8>) -> Seq<u8>;

/// Output of TupleHash128 on (elements, output bytes, customization).
pub uninterp spec fn tuple128_of(elems: Seq<Seq<u8>>, out_len: nat, cust: Seq<u8>) -> Seq<u8>;

/// Output of TupleHash256 on (elements, output bytes, customization).
pub uninterp spec fn tuple256_of(elems: Seq<Seq<u8>>, out_len: nat, cust: Seq<u8>) -> Seq<u8>;

/// Output of KangarooTwelve on (input, output bytes, customization).
pub uninterp spec fn k12_of(input: Seq<u8>, out_len: nat, cust: Seq<u8>) -> Seq<u8>;

/// The first `out_len` bytes of BLAKE3's extendable output on `input`.
pub uninterp spec fn blake3_xof_of(input: Seq<u8>, out_len: nat) -> Seq<u8>;

/// FF1 encryption under AES-256 with radix 2 and an empty tweak, the bytes
/// read as numerals in little-endian bit order.
pub uninterp spec fn ff1_of(key: Seq<u8>, data: Seq<u8>) -> Seq<u8>;

/// The elements absorbed so far by a TupleHash state.
pub uninterp spec fn tuple_elements(h: TupleHash) -> Seq<Seq<u8>>;

/// The customization string a TupleHash state was created with.
pub uninterp spec fn tuple_custom(h: TupleHash) -> Seq<u8>;

/// Whether a TupleHash state was created at the 256-bit security level.
pub uninterp spec fn tuple_is_256(h: TupleHash) -> bool;

#[verifier::external_type_specification]
#[verifier::external_body]
pub struct ExTupleHash(TupleHash);

/// Byte counts whose bit count the primitives compute in a `usize`.
pub open spec fn bit_len_ok(n: nat) -> bool {
    n * 8 <= usize::MAX
}

/// An optional parameter, with absence read as the empty byte string.
pub open spec fn or_empty(o: Option<&[u8]>) -> Seq<u8> {
    match o {
        Some(s) => s@,
        None => Seq::empty(),
    }
}

/// The byte contents of each element of a tuple.
pub open spec fn elements_of(input: Seq<&[u8]>) -> Seq<Seq<u8>> {
    input.map_values(|e: &[u8]| e@)
}

/// Relies on tiny_keccak's `CShake::v128`, `update` and `finalize`: the output
/// fills the buffer, so it has the requested length.
#[verifier::external_body]
fn cshake128_raw(input: &[u8], out_len: usize, name: &[u8], cust: &[u8]) -> (r: Vec<u8>)
    requires
        bit_len_ok(name@.len()),
        bit_len_ok(cust@.len()),
    ensures
        r@ == cshake128_of(input@, out_len as nat, name@, cust@),
        r@.len() == out_len,
{
    let mut h = CShake::v128(name, cust);
    h.update(input);
    let mut out = vec![0u8; out_len];
    h.finalize(&mut out);
    out
}

/// Relies on tiny_keccak's `CShake::v256`, `update` and `finalize`: the output
/// fills the buffer, so it has the requested length.
#[verifier::external_body]
fn cshake256_raw(input: &[u8], out_len: usize, name: &[u8], cust: &[u8]) -> (r: Vec<u8>)
    requires
        bit_len_ok(name@.len()),
        bit_len_ok(cust@.len()),
    ensures
        r@ == cshake256_of(input@, out_len as nat, name@, cust@),
        r@.len() == out_len,
{
    let mut h = CShake::v256(name, cust);
    h.update(input);
    let mut out = vec![0u8; out_len];
    h.finalize(&mut out);
    out
}

/// Relies on tiny_keccak's `Kmac::v128`, `update` and `finalize`: the output
/// fills the buffer, so it has the requested length.
#[verifier::external_body]
fn kmac128_raw(key: &[u8], input: &[u8], out_len: usize, cust: &[u8]) -> (r: Vec<u8>)
    requires
        bit_len_ok(key@.len()),
        bit_len_ok(cust@.len()),
        bit_len_ok(out_len as nat),
    ensures
        r@ == kmac128_of(key@, input@, out_len as nat, cust@),
        r@.len() == out_len,
{
    let mut h = Kmac::v128(key, cust);
    h.update(input);
    let mut out = vec![0u8; out_len];
    h.finalize(&mut out);
    out
}

/// Relies on tiny_keccak's `Kmac::v256`, `update` and `finalize`: the output
/// fills the buffer, so it has the requested length.
#[verifier::external_body]
fn kmac256_raw(key: &[u8], input: &[u8], out_len: usize, cust: &[u8]) -> (r: Vec<u8>)
    requires
        bit_len_ok(key@.len()),
        bit_len_ok(cust@.len()),
        bit_len_ok(out_len as nat),
    ensures
        r@ == kmac256_of(key@, input@, out_len as nat, cust@),
        r@.len() == out_len,
{
    let mut h = Kmac::v256(key, cust);
    h.update(input);
    let mut out = vec![0u8; out_len];
    h.finalize(&mut out);
    out
}

/// Relies on tiny_keccak's `ParallelHash::v128`, `update` and `finalize`: the
/// output fills the buffer; a zero block size would divide by zero.
#[verifier::external_body]
fn parallel128_raw(input: &[u8], block_len: usize, out_len: usize, cust: &[u8]) -> (r: Vec<u8>)
    requires
        block_len > 0,
        bit_len_ok(cust@.len()),
        bit_len_ok(out_len as nat),
    ensures
        r@ == parallel128_of(input@, block_len as nat, out_len as nat, cust@),
        r@.len() == out_len,
{
    let mut h = ParallelHash::v128(cust, block_len);
    h.update(input);
    let mut out = vec![0u8; out_len];
    h.finalize(&mut out);
    out
}

/// Relies on tiny_keccak's `ParallelHash::v256`, `update` and `finalize`: the
/// output fills the buffer; a zero block size would divide by zero.
#[verifier::external_body]
fn parallel256_raw(input: &[u8], block_len: usize, out_len: usize, cust: &[u8]) -> (r: Vec<u8>)
    requires
        block_len > 0,
        bit_len_ok(cust@.len()),
        bit_len_ok(out_len as nat),
    ensures
        r@ == parallel256_of(input@, block_len as nat, out_len as nat, cust@),
        r@.len() == out_len,
{
    let mut h = ParallelHash::v256(cust, block_len);
    h.update(input);
    let mut out = vec![0u8; out_len];
    h.finalize(&mut out);
    out
}

/// Relies on tiny_keccak's `KangarooTwelve::new`, `update` and `finalize`: the
/// output fills the buffer, so it has the requested length.
#[verifier::external_body]
fn k12_raw(input: &[u8], out_len: usize, cust: &[u8]) -> (r: Vec<u8>)
    ensures
        r@ == k12_of(input@, out_len as nat, cust@),
        r@.len() == out_len,
{
    let mut h = KangarooTwelve::new(cust);
    h.update(input);
    let mut out = vec![0u8; out_len];
    h.finalize(&mut out);
    out
}

/// Relies on tiny_keccak's `TupleHash::v128`: a fresh state with no elements.
#[verifier::external_body]
fn tuple_start128(cust: &[u8]) -> (r: TupleHash)
    requires
        bit_len_ok(cust@.len()),
    ensures
        tuple_elements(r) == Seq::<Seq<u8>>::empty(),
        tuple_custom(r) == cust@,
        !tuple_is_256(r),
{
    TupleHash::v128(cust)
}

/// Relies on tiny_keccak's `TupleHash::v256`: a fresh state with no elements.
#[verifier::external_body]
fn tuple_start256(cust: &[u8]) -> (r: TupleHash)
    requires
        bit_len_ok(cust@.len()),
    ensures
        tuple_elements(r) == Seq::<Seq<u8>>::empty(),
        tuple_custom(r) == cust@,
        tuple_is_256(r),
{
    TupleHash::v256(cust)
}

/// Relies on tiny_keccak's `TupleHash::update`: it absorbs one element of the
/// tuple, encoded with its own length.
#[verifier::external_body]
fn tuple_absorb(h: &mut TupleHash, elem: &[u8])
    requires
        bit_len_ok(elem@.len()),
    ensures
        tuple_elements(*final(h)) == tuple_elements(*old(h)).push(elem@),
        tuple_custom(*final(h)) == tuple_custom(*old(h)),
        tuple_is_256(*final(h)) == tuple_is_256(*old(h)),
{
    h.update(elem)
}

/// Relies on tiny_keccak's `TupleHash::finalize`: the output fills the buffer.
#[verifier::external_body]
fn tuple_finish(h: TupleHash, out_len: usize) -> (r: Vec<u8>)
    requires
        bit_len_ok(out_len as nat),
    ensures
        !tuple_is_256(h) ==> r@ == tuple128_of(tuple_elements(h), out_len as nat, tuple_custom(h)),
        tuple_is_256(h) ==> r@ == tuple256_of(tuple_elements(h), out_len as nat, tuple_custom(h)),
        r@.len() == out_len,
{
    let mut out = vec![0u8; out_len];
    h.finalize(&mut out);
    out
}

/// Relies on blake3's `Hasher::new`, `update`, `finalize_xof` and
/// `OutputReader::fill`: the reader fills the buffer.
#[verifier::external_body]
fn blake3_raw(input: &[u8], out_len: usize) -> (r: Vec<u8>)
    ensures
        r@ == blake3_xof_of(input@, out_len as nat),
        r@.len() == out_len,
{
    let mut h = blake3::Hasher::new();
    h.update(input);
    let mut out = vec![0u8; out_len];
    h.finalize_xof().fill(&mut out);
    out
}

/// Relies on fpe's `FF1::<Aes256>::new` and `FF1::encrypt` over a
/// `BinaryNumeralString`. A key of 32 bytes is what AES-256 takes (another
/// length panics). Encryption fails exactly when the numeral count, eight per
/// byte, is under 20 or over `u32::MAX`; otherwise the numeral count is kept.
#[verifier::external_body]
fn ff1_raw(key: &[u8], data: &[u8]) -> (r: Option<Vec<u8>>)
    requires
        key@.len() == 32,
    ensures
        r is Some <==> (20 <= data@.len() * 8 <= u32::MAX),
        r matches Some(v) ==> v@ == ff1_of(key@, data@) && v@.len() == data@.len(),
{
    let ff = FF1::<Aes256>::new(key, 2).ok()?;
    let enc = ff.encrypt(&[], &BinaryNumeralString::from_bytes_le(data)).ok()?;
    Some(enc.to_bytes_le())
}


/// The parameter, or the empty byte string when it is absent.
fn unwrap_or_empty<'a>(o: Option<&'a [u8]>, empty: &'a [u8]) -> (r: &'a [u8])
    requires
        empty@.len() == 0,
    ensures
        r@ == or_empty(o),
{
    match o {
        Some(s) => s,
        None => {
            assert(empty@ =~= Seq::<u8>::empty());
            empty
        },
    }
}

/// cSHAKE128 of `input` with `dk_len` output bytes; an absent name or
/// customization is the empty string.
pub fn cshake128(input: &[u8], dk_len: usize, name: Option<&[u8]>, cust: Option<&[u8]>) -> (r: Vec<u8>)
    requires
        bit_len_ok(or_empty(name).len()),
        bit_len_ok(or_empty(cust).len()),
    ensures
        r@ == cshake128_of(input@, dk_len as nat, or_empty(name), or_empty(cust)),
        r@.len() == dk_len,
{
    let empty: Vec<u8> = Vec::new();
    let n = unwrap_or_empty(name, empty.as_slice());
    let c = unwrap_or_empty(cust, empty.as_slice());
    cshake128_raw(input, dk_len, n, c)
}

/// cSHAKE256 of `input` with `dk_len` output bytes; an absent name or
/// customization is the empty string.
pub fn cshake256(input: &[u8], dk_len: usize, name: Option<&[u8]>, cust: Option<&[u8]>) -> (r: Vec<u8>)
    requires
        bit_len_ok(or_empty(name).len()),
        bit_len_ok(or_empty(cust).len()),
    ensures
        r@ == cshake256_of(input@, dk_len as nat, or_empty(name), or_empty(cust)),
        r@.len() == dk_len,
{
    let empty: Vec<u8> = Vec::new();
    let n = unwrap_or_empty(name, empty.as_slice());
    let c = unwrap_or_empty(cust, empty.as_slice());
    cshake256_raw(input, dk_len, n, c)
}

/// KMAC128 of `input` under `key` with `dk_len` output bytes; an absent
/// customization is the empty string.
pub fn kmac128(key: &[u8], input: &[u8], dk_len: usize, cust: Option<&[u8]>) -> (r: Vec<u8>)
    requires
        bit_len_ok(key@.len()),
        bit_len_ok(or_empty(cust).len()),
        bit_len_ok(dk_len as nat),
    ensures
        r@ == kmac128_of(key@, input@, dk_len as nat, or_empty(cust)),
        r@.len() == dk_len,
{
    let empty: Vec<u8> = Vec::new();
    let c = unwrap_or_empty(cust, empty.as_slice());
    kmac128_raw(key, input, dk_len, c)
}

/// KMAC256 of `input` under `key` with `dk_len` output bytes; an absent
/// customization is the empty string.
pub fn kmac256(key: &[u8], input: &[u8], dk_len: usize, cust: Option<&[u8]>) -> (r: Vec<u8>)
    requires
        bit_len_ok(key@.len()),
        bit_len_ok(or_empty(cust).len()),
        bit_len_ok(dk_len as nat),
    ensures
        r@ == kmac256_of(key@, input@, dk_len as nat, or_empty(cust)),
        r@.len() == dk_len,
{
    let empty: Vec<u8> = Vec::new();
    let c = unwrap_or_empty(cust, empty.as_slice());
    kmac256_raw(key, input, dk_len, c)
}

/// ParallelHash128 of `input` cut into blocks of `block_len` bytes, with
/// `dk_len` output bytes; an absent customization is the empty string.
pub fn parallel_hash128(input: &[u8], block_len: u64, dk_len: usize, cust: Option<&[u8]>) -> (r: Vec<u8>)
    requires
        0 < block_len <= usize::MAX,
        bit_len_ok(or_empty(cust).len()),
        bit_len_ok(dk_len as nat),
    ensures
        r@ == parallel128_of(input@, block_len as nat, dk_len as nat, or_empty(cust)),
        r@.len() == dk_len,
{
    let empty: Vec<u8> = Vec::new();
    let c = unwrap_or_empty(cust, empty.as_slice());
    parallel128_raw(input, block_len as usize, dk_len, c)
}

/// ParallelHash256 of `input` cut into blocks of `block_len` bytes, with
/// `dk_len` output bytes; an absent customization is the empty string.
pub fn parallel_hash256(input: &[u8], block_len: u64, dk_len: usize, cust: Option<&[u8]>) -> (r: Vec<u8>)
    requires
        0 < block_len <= usize::MAX,
        bit_len_ok(or_empty(cust).len()),
        bit_len_ok(dk_len as nat),
    ensures
        r@ == parallel256_of(input@, block_len as nat, dk_len as nat, or_empty(cust)),
        r@.len() == dk_len,
{
    let empty: Vec<u8> = Vec::new();
    let c = unwrap_or_empty(cust, empty.as_slice());
    parallel256_raw(input, block_len as usize, dk_len, c)
}

/// Absorbs each element of `input`, in order, as one item of the tuple.
fn absorb_all(h: &mut TupleHash, input: &[&[u8]])
    requires
        forall|k: int| 0 <= k < input@.len() ==> bit_len_ok(#[trigger] input@[k]@.len()),
    ensures
        tuple_elements(*final(h)) == tuple_elements(*old(h)) + elements_of(input@),
        tuple_custom(*final(h)) == tuple_custom(*old(h)),
        tuple_is_256(*final(h)) == tuple_is_256(*old(h)),
{
    let ghost start = tuple_elements(*h);
    let mut i: usize = 0;
    while i < input.len()
        invariant
            0 <= i <= input@.len(),
            forall|k: int| 0 <= k < input@.len() ==> bit_len_ok(#[trigger] input@[k]@.len()),
            tuple_elements(*h) == start + elements_of(input@.subrange(0, i as int)),
            tuple_custom(*h) == tuple_custom(*old(h)),
            tuple_is_256(*h) == tuple_is_256(*old(h)),
        decreases input@.len() - i,
    {
        let e: &[u8] = input[i];
        assert(bit_len_ok(input@[i as int]@.len()));
        tuple_absorb(h, e);
        assert(elements_of(input@.subrange(0, i + 1)) =~= elements_of(input@.subrange(0, i as int)).push(e@));
        assert(start + elements_of(input@.subrange(0, i + 1)) =~= (start + elements_of(input@.subrange(0, i as int))).push(e@));
        i = i + 1;
    }
    assert(input@.subrange(0, input@.len() as int) =~= input@);
}

/// TupleHash128 of the ordered elements of `input`, each hashed as a separate
/// item, with `dk_len` output bytes; an absent customization is the empty
/// string. No elements at all is a valid tuple.
pub fn tuple_hash128(input: &[&[u8]], dk_len: usize, cust: Option<&[u8]>) -> (r: Vec<u8>)
    requires
        forall|k: int| 0 <= k < input@.len() ==> bit_len_ok(#[trigger] input@[k]@.len()),
        bit_len_ok(or_empty(cust).len()),
        bit_len_ok(dk_len as nat),
    ensures
        r@ == tuple128_of(elements_of(input@), dk_len as nat, or_empty(cust)),
        r@.len() == dk_len,
{
    let empty: Vec<u8> = Vec::new();
    let c = unwrap_or_empty(cust, empty.as_slice());
    let mut h = tuple_start128(c);
    absorb_all(&mut h, input);
    assert(Seq::<Seq<u8>>::empty() + elements_of(input@) =~= elements_of(input@));
    tuple_finish(h, dk_len)
}

/// TupleHash256 of the ordered elements of `input`, each hashed as a separate
/// item, with `dk_len` output bytes; an absent customization is the empty
/// string. No elements at all is a valid tuple.
pub fn tuple_hash256(input: &[&[u8]], dk_len: usize, cust: Option<&[u8]>) -> (r: Vec<u8>)
    requires
        forall|k: int| 0 <= k < input@.len() ==> bit_len_ok(#[trigger] input@[k]@.len()),
        bit_len_ok(or_empty(cust).len()),
        bit_len_ok(dk_len as nat),
    ensures
        r@ == tuple256_of(elements_of(input@), dk_len as nat, or_empty(cust)),
        r@.len() == dk_len,
{
    let empty: Vec<u8> = Vec::new();
    let c = unwrap_or_empty(cust, empty.as_slice());
    let mut h = tuple_start256(c);
    absorb_all(&mut h, input);
    assert(Seq::<Seq<u8>>::empty() + elements_of(input@) =~= elements_of(input@));
    tuple_finish(h, dk_len)
}

/// KangarooTwelve of `input` with `dk_len` output bytes; an absent
/// customization is the empty string.
pub fn k12(input: &[u8], dk_len: usize, cust: Option<&[u8]>) -> (r: Vec<u8>)
    ensures
        r@ == k12_of(input@, dk_len as nat, or_empty(cust)),
        r@.len() == dk_len,
{
    let empty: Vec<u8> = Vec::new();
    let c = unwrap_or_empty(cust, empty.as_slice());
    k12_raw(input, dk_len, c)
}

/// The first `dk_len` bytes of BLAKE3's extendable output on `input`.
pub fn blake3_xof(input: &[u8], dk_len: usize) -> (r: Vec<u8>)
    ensures
        r@ == blake3_xof_of(input@, dk_len as nat),
        r@.len() == dk_len,
{
    blake3_raw(input, dk_len)
}

/// Why a format-preserving encryption was refused.
#[derive(Clone, Copy, Debug, PartialEq, Eq, Structural)]
pub enum Ff1Error {
    /// The key is not 32 bytes long.
    KeyLength,
    /// The data holds fewer than 20 or more than `u32::MAX` bits.
    DataLength,
}

/// Encrypts `data`, read as a binary numeral string in little-endian bit
/// order, with FF1 over AES-256 under `key` and an empty tweak.
pub fn binary_ff1_encrypt(key: &[u8], data: &[u8]) -> (r: Result<Vec<u8>, Ff1Error>)
    ensures
        key@.len() != 32 ==> r == Err::<Vec<u8>, Ff1Error>(Ff1Error::KeyLength),
        key@.len() == 32 && !(20 <= data@.len() * 8 <= u32::MAX)
            ==> r == Err::<Vec<u8>, Ff1Error>(Ff1Error::DataLength),
        key@.len() == 32 && 20 <= data@.len() * 8 <= u32::MAX ==> (r matches Ok(v)
            && v@ == ff1_of(key@, data@) && v@.len() == data@.len()),
{
    if key.len() != 32 {
        return Err(Ff1Error::KeyLength);
    }
    match ff1_raw(key, data) {
        Some(v) => Ok(v),
        None => Err(Ff1Error::DataLength),
    }
}

} // verus!
