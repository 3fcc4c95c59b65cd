//! The canonical test record, the call it records, and the corpus that
//! accumulates records in insertion order.
use vstd::prelude::*;
use vstd::slice::{slice_subrange, slice_to_vec};
use crate::primitives::{
    blake3_xof, cshake128, cshake256, k12, kmac128, kmac256, parallel_hash128, parallel_hash256,
    tuple_hash128, tuple_hash256, binary_ff1_encrypt, bit_len_ok, elements_of, Ff1Error,
    blake3_xof_of, cshake128_of, cshake256_of, ff1_of, k12_of, kmac128_of, kmac256_of,
    parallel128_of, parallel256_of, tuple128_of, tuple256_of,
};

verus! {

/// The primitive family a record was produced by.
#[derive(Clone, Copy, Debug, PartialEq, Eq, Structural)]
pub enum Family {
    Cshake128,
    Cshake256,
    Kmac128,
    Kmac256,
    K12,
    Blake3,
    BinaryFf1,
    Parallel128,
    Parallel256,
    Tuple128,
    Tuple256,
}

/// The tag a record carries for its family.
pub open spec fn family_tag(f: Family) -> Seq<char> {
    match f {
        Family::Cshake128 => "cshake128"@,
        Family::Cshake256 => "cshake256"@,
        Family::Kmac128 => "kmac128"@,
        Family::Kmac256 => "kmac256"@,
        Family::K12 => "k12"@,
        Family::Blake3 => "blake3"@,
        Family::BinaryFf1 => "binary_ff1"@,
        Family::Parallel128 => "parallel128"@,
        Family::Parallel256 => "parallel256"@,
        Family::Tuple128 => "tuple128"@,
        Family::Tuple256 => "tuple256"@,
    }
}

impl Family {
    /// The tag a record carries for this family.
    pub fn tag(&self) -> (r: &'static str)
        ensures
            r@ == family_tag(*self),
    {
        match self {
            Family::Cshake128 => "cshake128",
            Family::Cshake256 => "cshake256",
            Family::Kmac128 => "kmac128",
            Family::Kmac256 => "kmac256",
            Family::K12 => "k12",
            Family::Blake3 => "blake3",
            Family::BinaryFf1 => "binary_ff1",
            Family::Parallel128 => "parallel128",
            Family::Parallel256 => "parallel256",
            Family::Tuple128 => "tuple128",
            Family::Tuple256 => "tuple256",
        }
    }
}

/// Families that take a function-name string.
pub open spec fn takes_name(f: Family) -> bool {
    f == Family::Cshake128 || f == Family::Cshake256
}

/// Families that take a customization string.
pub open spec fn takes_cust(f: Family) -> bool {
    !(f == Family::Blake3 || f == Family::BinaryFf1)
}

/// Families that take a key.
pub open spec fn takes_key(f: Family) -> bool {
    f == Family::Kmac128 || f == Family::Kmac256 || f == Family::BinaryFf1
}

/// Families that take a block length.
pub open spec fn takes_block(f: Family) -> bool {
    f == Family::Parallel128 || f == Family::Parallel256
}

/// The tuple a tuple-hash record stands for: every proper prefix of `data`,
/// shortest first.
pub open spec fn prefixes(data: Seq<u8>) -> Seq<Seq<u8>> {
    Seq::new(data.len(), |j: int| data.subrange(0, j))
}

/// What the primitive of family `f` outputs on these parameters; parameters
/// the family does not take are ignored.
pub open spec fn output_of(
    f: Family,
    data: Seq<u8>,
    out_len: nat,
    name: Seq<u8>,
    cust: Seq<u8>,
    key: Seq<u8>,
    block_len: u64,
) -> Seq<u8> {
    match f {
        Family::Cshake128 => cshake128_of(data, out_len, name, cust),
        Family::Cshake256 => cshake256_of(data, out_len, name, cust),
        Family::Kmac128 => kmac128_of(key, data, out_len, cust),
        Family::Kmac256 => kmac256_of(key, data, out_len, cust),
        Family::K12 => k12_of(data, out_len, cust),
        Family::Blake3 => blake3_xof_of(data, out_len),
        Family::BinaryFf1 => ff1_of(key, data),
        Family::Parallel128 => parallel128_of(data, block_len as nat, out_len, cust),
        Family::Parallel256 => parallel256_of(data, block_len as nat, out_len, cust),
        Family::Tuple128 => tuple128_of(prefixes(data), out_len, cust),
        Family::Tuple256 => tuple256_of(prefixes(data), out_len, cust),
    }
}

/// One invocation of a primitive: the family and every parameter it may take.
pub struct Call {
    pub family: Family,
    pub data: Seq<u8>,
    pub out_len: nat,
    pub name: Seq<u8>,
    pub cust: Seq<u8>,
    pub key: Seq<u8>,
    pub block_len: u64,
}

/// The abstract value of a record.
pub struct TestRecord {
    pub fn_name: Family,
    pub data: Seq<u8>,
    pub exp: Seq<u8>,
    pub nist_fn: Option<Seq<u8>>,
    pub personalization: Option<Seq<u8>>,
    pub key: Option<Seq<u8>>,
    pub block_len: Option<u64>,
}

pub open spec fn present_if(b: bool, s: Seq<u8>) -> Option<Seq<u8>> {
    if b { Some(s) } else { None }
}

pub open spec fn or_empty_seq(o: Option<Seq<u8>>) -> Seq<u8> {
    match o {
        Some(s) => s,
        None => Seq::empty(),
    }
}

/// The record that a call produces: exactly the parameters its family takes
/// are present, and the expected output is the primitive's.
pub open spec fn record_of(c: Call) -> TestRecord {
    TestRecord {
        fn_name: c.family,
        data: c.data,
        exp: output_of(c.family, c.data, c.out_len, c.name, c.cust, c.key, c.block_len),
        nist_fn: present_if(takes_name(c.family), c.name),
        personalization: present_if(takes_cust(c.family), c.cust),
        key: present_if(takes_key(c.family), c.key),
        block_len: if takes_block(c.family) { Some(c.block_len) } else { None },
    }
}

/// Optional fields are present exactly when the family takes them.
pub open spec fn fields_match(r: TestRecord) -> bool {
    &&& (r.nist_fn is Some <==> takes_name(r.fn_name))
    &&& (r.personalization is Some <==> takes_cust(r.fn_name))
    &&& (r.key is Some <==> takes_key(r.fn_name))
    &&& (r.block_len is Some <==> takes_block(r.fn_name))
}

/// Feeding the record's fields back into its primitive, with the length of
/// `exp` as output length, gives `exp`.
pub open spec fn replays(r: TestRecord) -> bool {
    r.exp == output_of(
        r.fn_name,
        r.data,
        r.exp.len(),
        or_empty_seq(r.nist_fn),
        or_empty_seq(r.personalization),
        or_empty_seq(r.key),
        match r.block_len {
            Some(b) => b,
            None => 0,
        },
    )
}

pub open spec fn record_ok(r: TestRecord) -> bool {
    fields_match(r) && replays(r)
}

/// A record made from a call whose output has the requested length satisfies
/// both record laws.
pub proof fn lemma_record_of_ok(c: Call)
    requires
        record_of(c).exp.len() == c.out_len,
    ensures
        record_ok(record_of(c)),
{
}

/// One test vector.
#[derive(Debug, PartialEq, Eq)]
pub struct TestCase {
    pub fn_name: Family,
    pub data: Vec<u8>,
    pub exp: Vec<u8>,
    pub nist_fn: Option<Vec<u8>>,
    pub personalization: Option<Vec<u8>>,
    pub key: Option<Vec<u8>>,
    pub block_len: Option<u64>,
}

pub open spec fn opt_view(o: Option<Vec<u8>>) -> Option<Seq<u8>> {
    match o {
        Some(v) => Some(v@),
        None => None,
    }
}

impl View for TestCase {
    type V = TestRecord;

    open spec fn view(&self) -> TestRecord {
        TestRecord {
            fn_name: self.fn_name,
            data: self.data@,
            exp: self.exp@,
            nist_fn: opt_view(self.nist_fn),
            personalization: opt_view(self.personalization),
            key: opt_view(self.key),
            block_len: self.block_len,
        }
    }
}

/// The corpus: records in the order they were added.
#[derive(Debug, PartialEq, Eq)]
pub struct TestCases {
    pub v: Vec<TestCase>,
}

/// A call that names every parameter.
pub open spec fn call(
    family: Family,
    data: Seq<u8>,
    out_len: nat,
    name: Seq<u8>,
    cust: Seq<u8>,
    key: Seq<u8>,
    block_len: u64,
) -> Call {
    Call { family, data, out_len, name, cust, key, block_len }
}

fn bytes_if(b: bool, s: &[u8]) -> (r: Option<Vec<u8>>)
    ensures
        opt_view(r) == present_if(b, s@),
{
    if b {
        Some(slice_to_vec(s))
    } else {
        None
    }
}

/// Every proper prefix of `data`, shortest first.
fn prefix_slices<'a>(data: &'a [u8]) -> (r: Vec<&'a [u8]>)
    requires
        bit_len_ok(data@.len()),
    ensures
        elements_of(r@) == prefixes(data@),
        forall|k: int| 0 <= k < r@.len() ==> bit_len_ok(#[trigger] r@[k]@.len()),
{
    let mut r: Vec<&'a [u8]> = Vec::new();
    let mut i: usize = 0;
    while i < data.len()
        invariant
            0 <= i <= data@.len(),
            bit_len_ok(data@.len()),
            r@.len() == i,
            forall|k: int| 0 <= k < i ==> (#[trigger] r@[k])@ == data@.subrange(0, k),
        decreases data@.len() - i,
    {
        r.push(slice_subrange(data, 0, i));
        i = i + 1;
    }
    assert(elements_of(r@) =~= prefixes(data@));
    r
}

impl TestCases {
    pub open spec fn records(&self) -> Seq<TestRecord> {
        self.v@.map_values(|t: TestCase| t@)
    }

    /// Every record satisfies the record laws.
    pub open spec fn well_formed(&self) -> bool {
        forall|k: int| 0 <= k < self.records().len() ==> record_ok(#[trigger] self.records()[k])
    }

    /// An empty corpus.
    pub fn new() -> (r: TestCases)
        ensures
            r.records() == Seq::<TestRecord>::empty(),
            r.well_formed(),
    {
        let r = TestCases { v: Vec::new() };
        assert(r.records() =~= Seq::<TestRecord>::empty());
        r
    }

    /// Appends the record of a call whose output `exp` has been computed.
    fn push_call(
        &mut self,
        family: Family,
        data: &[u8],
        exp: Vec<u8>,
        name: &[u8],
        cust: &[u8],
        key: &[u8],
        block_len: u64,
        Ghost(out_len): Ghost<nat>,
    )
        requires
            old(self).well_formed(),
            exp@ == output_of(family, data@, out_len, name@, cust@, key@, block_len),
            exp@.len() == out_len,
        ensures
            final(self).records() == old(self).records().push(
                record_of(call(family, data@, out_len, name@, cust@, key@, block_len)),
            ),
            final(self).well_formed(),
    {
        let ghost c = call(family, data@, out_len, name@, cust@, key@, block_len);
        let t = TestCase {
            fn_name: family,
            data: slice_to_vec(data),
            exp,
            nist_fn: bytes_if(family == Family::Cshake128 || family == Family::Cshake256, name),
            personalization: bytes_if(!(family == Family::Blake3 || family == Family::BinaryFf1), cust),
            key: bytes_if(
                family == Family::Kmac128 || family == Family::Kmac256 || family == Family::BinaryFf1,
                key,
            ),
            block_len: if family == Family::Parallel128 || family == Family::Parallel256 {
                Some(block_len)
            } else {
                None
            },
        };
        assert(t@ == record_of(c));
        proof {
            lemma_record_of_ok(c);
        }
        let ghost prev = self.records();
        self.v.push(t);
        assert(self.records() =~= prev.push(t@));
        assert forall|k: int| 0 <= k < self.records().len() implies record_ok(
            #[trigger] self.records()[k],
        ) by {
            if k < prev.len() {
                assert(self.records()[k] == prev[k]);
            }
        }
    }

    /// Records cSHAKE128 of `data` with `dk_len` output bytes, function name `name` and customization `cust`.
    pub fn cshake128(&mut self, data: &[u8], dk_len: usize, name: &[u8], cust: &[u8])
        requires
            old(self).well_formed(),
            bit_len_ok(name@.len()),
            bit_len_ok(cust@.len()),
        ensures
            final(self).records() == old(self).records().push(record_of(call(Family::Cshake128, data@, dk_len as nat, name@, cust@, Seq::empty(), 0))),
            final(self).records().last().exp.len() == dk_len as nat,
            final(self).well_formed(),
    {
        let empty: Vec<u8> = Vec::new();
        let exp = cshake128(data, dk_len, Some(name), Some(cust));
        self.push_call(Family::Cshake128, data, exp, name, cust, empty.as_slice(), 0, Ghost(dk_len as nat));
        assert(empty@ =~= Seq::<u8>::empty());
    }

    /// Records cSHAKE256 of `data` with `dk_len` output bytes, function name `name` and customization `cust`.
    pub fn cshake256(&mut self, data: &[u8], dk_len: usize, name: &[u8], cust: &[u8])
        requires
            old(self).well_formed(),
            bit_len_ok(name@.len()),
            bit_len_ok(cust@.len()),
        ensures
            final(self).records() == old(self).records().push(record_of(call(Family::Cshake256, data@, dk_len as nat, name@, cust@, Seq::empty(), 0))),
            final(self).records().last().exp.len() == dk_len as nat,
            final(self).well_formed(),
    {
        let empty: Vec<u8> = Vec::new();
        let exp = cshake256(data, dk_len, Some(name), Some(cust));
        self.push_call(Family::Cshake256, data, exp, name, cust, empty.as_slice(), 0, Ghost(dk_len as nat));
        assert(empty@ =~= Seq::<u8>::empty());
    }

    /// Records KMAC128 of `data` under `key` with `dk_len` output bytes and customization `cust`.
    pub fn kmac128(&mut self, key: &[u8], data: &[u8], dk_len: usize, cust: &[u8])
        requires
            old(self).well_formed(),
            bit_len_ok(key@.len()),
            bit_len_ok(cust@.len()),
            bit_len_ok(dk_len as nat),
        ensures
            final(self).records() == old(self).records().push(record_of(call(Family::Kmac128, data@, dk_len as nat, Seq::empty(), cust@, key@, 0))),
            final(self).records().last().exp.len() == dk_len as nat,
            final(self).well_formed(),
    {
        let empty: Vec<u8> = Vec::new();
        let exp = kmac128(key, data, dk_len, Some(cust));
        self.push_call(Family::Kmac128, data, exp, empty.as_slice(), cust, key, 0, Ghost(dk_len as nat));
        assert(empty@ =~= Seq::<u8>::empty());
    }

    /// Records KMAC256 of `data` under `key` with `dk_len` output bytes and customization `cust`.
    pub fn kmac256(&mut self, key: &[u8], data: &[u8], dk_len: usize, cust: &[u8])
        requires
            old(self).well_formed(),
            bit_len_ok(key@.len()),
            bit_len_ok(cust@.len()),
            bit_len_ok(dk_len as nat),
        ensures
            final(self).records() == old(self).records().push(record_of(call(Family::Kmac256, data@, dk_len as nat, Seq::empty(), cust@, key@, 0))),
            final(self).records().last().exp.len() == dk_len as nat,
            final(self).well_formed(),
    {
        let empty: Vec<u8> = Vec::new();
        let exp = kmac256(key, data, dk_len, Some(cust));
        self.push_call(Family::Kmac256, data, exp, empty.as_slice(), cust, key, 0, Ghost(dk_len as nat));
        assert(empty@ =~= Seq::<u8>::empty());
    }

    /// Records KangarooTwelve of `data` with `dk_len` output bytes and customization `cust`.
    pub fn k12(&mut self, data: &[u8], dk_len: usize, cust: &[u8])
        requires
            old(self).well_formed(),
        ensures
            final(self).records() == old(self).records().push(record_of(call(Family::K12, data@, dk_len as nat, Seq::empty(), cust@, Seq::empty(), 0))),
            final(self).records().last().exp.len() == dk_len as nat,
            final(self).well_formed(),
    {
        let empty: Vec<u8> = Vec::new();
        let exp = k12(data, dk_len, Some(cust));
        self.push_call(Family::K12, data, exp, empty.as_slice(), cust, empty.as_slice(), 0, Ghost(dk_len as nat));
        assert(empty@ =~= Seq::<u8>::empty());
    }

    /// Records the first `dk_len` bytes of BLAKE3 on `data`.
    pub fn b3(&mut self, data: &[u8], dk_len: usize)
        requires
            old(self).well_formed(),
        ensures
            final(self).records() == old(self).records().push(record_of(call(Family::Blake3, data@, dk_len as nat, Seq::empty(), Seq::empty(), Seq::empty(), 0))),
            final(self).records().last().exp.len() == dk_len as nat,
            final(self).well_formed(),
    {
        let empty: Vec<u8> = Vec::new();
        let exp = blake3_xof(data, dk_len);
        self.push_call(Family::Blake3, data, exp, empty.as_slice(), empty.as_slice(), empty.as_slice(), 0, Ghost(dk_len as nat));
        assert(empty@ =~= Seq::<u8>::empty());
    }

    /// Records ParallelHash128 of `data` in blocks of `block_len` bytes with `dk_len` output bytes and customization `cust`.
    pub fn parallel128(&mut self, data: &[u8], block_len: u64, dk_len: usize, cust: &[u8])
        requires
            old(self).well_formed(),
            0 < block_len <= usize::MAX,
            bit_len_ok(cust@.len()),
            bit_len_ok(dk_len as nat),
        ensures
            final(self).records() == old(self).records().push(record_of(call(Family::Parallel128, data@, dk_len as nat, Seq::empty(), cust@, Seq::empty(), block_len))),
            final(self).records().last().exp.len() == dk_len as nat,
            final(self).well_formed(),
    {
        let empty: Vec<u8> = Vec::new();
        let exp = parallel_hash128(data, block_len, dk_len, Some(cust));
        self.push_call(Family::Parallel128, data, exp, empty.as_slice(), cust, empty.as_slice(), block_len, Ghost(dk_len as nat));
        assert(empty@ =~= Seq::<u8>::empty());
    }

    /// Records ParallelHash256 of `data` in blocks of `block_len` bytes with `dk_len` output bytes and customization `cust`.
    pub fn parallel256(&mut self, data: &[u8], block_len: u64, dk_len: usize, cust: &[u8])
        requires
            old(self).well_formed(),
            0 < block_len <= usize::MAX,
            bit_len_ok(cust@.len()),
            bit_len_ok(dk_len as nat),
        ensures
            final(self).records() == old(self).records().push(record_of(call(Family::Parallel256, data@, dk_len as nat, Seq::empty(), cust@, Seq::empty(), block_len))),
            final(self).records().last().exp.len() == dk_len as nat,
            final(self).well_formed(),
    {
        let empty: Vec<u8> = Vec::new();
        let exp = parallel_hash256(data, block_len, dk_len, Some(cust));
        self.push_call(Family::Parallel256, data, exp, empty.as_slice(), cust, empty.as_slice(), block_len, Ghost(dk_len as nat));
        assert(empty@ =~= Seq::<u8>::empty());
    }

    /// Records FF1 encryption of `data` under `key`. The record is added only
    /// when the encryption succeeds; otherwise the corpus is unchanged.
    pub fn binary_ff1(&mut self, key: &[u8], data: &[u8]) -> (r: Result<(), Ff1Error>)
        requires
            old(self).well_formed(),
        ensures
            key@.len() != 32 ==> r == Err::<(), Ff1Error>(Ff1Error::KeyLength),
            key@.len() == 32 && !(20 <= data@.len() * 8 <= u32::MAX)
                ==> r == Err::<(), Ff1Error>(Ff1Error::DataLength),
            key@.len() == 32 && 20 <= data@.len() * 8 <= u32::MAX ==> r is Ok,
            r is Ok ==> final(self).records() == old(self).records().push(
                record_of(call(Family::BinaryFf1, data@, data@.len(), Seq::empty(), Seq::empty(), key@, 0)),
            ),
            r is Ok ==> final(self).records().last().exp.len() == data@.len(),
            r is Err ==> final(self).records() == old(self).records(),
            final(self).well_formed(),
    {
        let empty: Vec<u8> = Vec::new();
        match binary_ff1_encrypt(key, data) {
            Ok(exp) => {
                self.push_call(
                    Family::BinaryFf1,
                    data,
                    exp,
                    empty.as_slice(),
                    empty.as_slice(),
                    key,
                    0,
                    Ghost(data@.len()),
                );
                assert(empty@ =~= Seq::<u8>::empty());
                Ok(())
            },
            Err(e) => Err(e),
        }
    }

    /// Records TupleHash128 of the tuple of every proper prefix of `data`
    /// (`data[0..0]`, `data[0..1]`, up to `data[0..len-1]`), with `dk_len`
    /// output bytes and customization `cust`.
    pub fn tuple128(&mut self, data: &[u8], dk_len: usize, cust: &[u8])
        requires
            old(self).well_formed(),
            bit_len_ok(data@.len()),
            bit_len_ok(cust@.len()),
            bit_len_ok(dk_len as nat),
        ensures
            final(self).records() == old(self).records().push(
                record_of(call(Family::Tuple128, data@, dk_len as nat, Seq::empty(), cust@, Seq::empty(), 0)),
            ),
            final(self).records().last().exp.len() == dk_len,
            final(self).well_formed(),
    {
        let empty: Vec<u8> = Vec::new();
        let elems = prefix_slices(data);
        let exp = tuple_hash128(elems.as_slice(), dk_len, Some(cust));
        self.push_call(
            Family::Tuple128,
            data,
            exp,
            empty.as_slice(),
            cust,
            empty.as_slice(),
            0,
            Ghost(dk_len as nat),
        );
        assert(empty@ =~= Seq::<u8>::empty());
    }

    /// Records TupleHash256 of the tuple of every proper prefix of `data`
    /// (`data[0..0]`, `data[0..1]`, up to `data[0..len-1]`), with `dk_len`
    /// output bytes and customization `cust`.
    pub fn tuple256(&mut self, data: &[u8], dk_len: usize, cust: &[u8])
        requires
            old(self).well_formed(),
            bit_len_ok(data@.len()),
            bit_len_ok(cust@.len()),
            bit_len_ok(dk_len as nat),
        ensures
            final(self).records() == old(self).records().push(
                record_of(call(Family::Tuple256, data@, dk_len as nat, Seq::empty(), cust@, Seq::empty(), 0)),
            ),
            final(self).records().last().exp.len() == dk_len,
            final(self).well_formed(),
    {
        let empty: Vec<u8> = Vec::new();
        let elems = prefix_slices(data);
        let exp = tuple_hash256(elems.as_slice(), dk_len, Some(cust));
        self.push_call(
            Family::Tuple256,
            data,
            exp,
            empty.as_slice(),
            cust,
            empty.as_slice(),
            0,
            Ghost(dk_len as nat),
        );
        assert(empty@ =~= Seq::<u8>::empty());
    }
}

} // verus!
