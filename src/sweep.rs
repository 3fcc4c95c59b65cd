//! The deterministic byte source and the sweep driver: which calls the
//! corpus holds, in which order, and the driver that makes them.
use vstd::prelude::*;
use vstd::slice::slice_subrange;
use crate::primitives::{blake3_xof, blake3_xof_of, bit_len_ok};
use crate::record::{call, record_of, Call, Family, TestCases, TestRecord};

verus! {

/// The bytes of the deterministic stream for `seed`: the first `length`
/// bytes of BLAKE3's extendable output on the single byte `seed`.
pub open spec fn random_bytes(seed: u8, length: nat) -> Seq<u8> {
    blake3_xof_of(seq![seed], length)
}

/// A reproducible byte buffer: a pure function of `(seed, length)`.
pub fn random(seed: u8, length: usize) -> (r: Vec<u8>)
    ensures
        r@ == random_bytes(seed, length as nat),
        r@.len() == length,
{
    let s: Vec<u8> = vec![seed];
    assert(s@ =~= seq![seed]);
    blake3_xof(s.as_slice(), length)
}

/// Output length used wherever the output length is not the varied dimension.
pub const DEFAULT_OUT: usize = 16;

/// Block lengths that the ParallelHash sweep runs through.
pub open spec fn block_lengths() -> Seq<u64> {
    seq![8u64, 16u64, 32u64, 64u64, 128u64]
}

/// `s`, or nothing when `i` is zero.
pub open spec fn unless_zero(i: nat, s: Seq<Call>) -> Seq<Call> {
    if i >= 1 { s } else { Seq::empty() }
}

/// cSHAKE at sweep index `i`: input length, output length, name length and
/// customization length varied one at a time.
pub open spec fn cshake_part(f: Family, msg: Seq<u8>, aux: Seq<u8>, cus: Seq<u8>, i: nat) -> Seq<Call> {
    let e = Seq::<u8>::empty();
    seq![call(f, msg.take(i as int), 16, e, e, e, 0)]
        + unless_zero(i, seq![call(f, e, i, e, e, e, 0)])
        + seq![call(f, e, 16, aux.take(i as int), e, e, 0), call(f, e, 16, e, cus.take(i as int), e, 0)]
}

/// KMAC at sweep index `i`: input length, output length, key length and
/// customization length varied one at a time.
pub open spec fn kmac_part(f: Family, msg: Seq<u8>, aux: Seq<u8>, cus: Seq<u8>, i: nat) -> Seq<Call> {
    let e = Seq::<u8>::empty();
    seq![call(f, msg.take(i as int), 16, e, e, e, 0)]
        + unless_zero(i, seq![call(f, e, i, e, e, e, 0)])
        + seq![call(f, e, 16, e, e, aux.take(i as int), 0), call(f, e, 16, e, cus.take(i as int), e, 0)]
}

/// KangarooTwelve at sweep index `i`: input, output and customization length.
pub open spec fn k12_part(msg: Seq<u8>, cus: Seq<u8>, i: nat) -> Seq<Call> {
    let e = Seq::<u8>::empty();
    let f = Family::K12;
    seq![call(f, msg.take(i as int), 16, e, e, e, 0)]
        + unless_zero(i, seq![call(f, e, i, e, e, e, 0)])
        + seq![call(f, e, 16, e, cus.take(i as int), e, 0)]
}

/// BLAKE3 at sweep index `i`: input and output length.
pub open spec fn b3_part(msg: Seq<u8>, i: nat) -> Seq<Call> {
    let e = Seq::<u8>::empty();
    let f = Family::Blake3;
    seq![call(f, msg.take(i as int), 16, e, e, e, 0)] + unless_zero(i, seq![call(f, e, i, e, e, e, 0)])
}

/// ParallelHash at sweep index `i` and one block length: input length,
/// customization length, and all defaults, for both security levels.
pub open spec fn parallel_block_part(msg: Seq<u8>, cus: Seq<u8>, i: nat, b: u64) -> Seq<Call> {
    let e = Seq::<u8>::empty();
    let f = Family::Parallel128;
    let g = Family::Parallel256;
    seq![
        call(f, msg.take(i as int), 16, e, e, e, b),
        call(f, e, 16, e, cus.take(i as int), e, b),
        call(f, e, 16, e, e, e, b),
        call(g, msg.take(i as int), 16, e, e, e, b),
        call(g, e, 16, e, cus.take(i as int), e, b),
        call(g, e, 16, e, e, e, b),
    ]
}

/// ParallelHash at sweep index `i`: every block length in turn, then output
/// length varied at block length 8.
pub open spec fn parallel_part(msg: Seq<u8>, cus: Seq<u8>, i: nat) -> Seq<Call> {
    let e = Seq::<u8>::empty();
    parallel_block_part(msg, cus, i, 8) + parallel_block_part(msg, cus, i, 16)
        + parallel_block_part(msg, cus, i, 32) + parallel_block_part(msg, cus, i, 64)
        + parallel_block_part(msg, cus, i, 128) + unless_zero(
        i,
        seq![call(Family::Parallel128, e, i, e, e, e, 8), call(Family::Parallel256, e, i, e, e, e, 8)],
    )
}

/// TupleHash at sweep index `i`: the tuple of the prefixes of the first `i`
/// message bytes, output length, customization length, and the empty tuple.
pub open spec fn tuple_part(f: Family, msg: Seq<u8>, cus: Seq<u8>, i: nat) -> Seq<Call> {
    let e = Seq::<u8>::empty();
    seq![call(f, msg.take(i as int), 16, e, e, e, 0)]
        + unless_zero(i, seq![call(f, e, i, e, e, e, 0)])
        + seq![call(f, e, 16, e, cus.take(i as int), e, 0), call(f, e, 16, e, e, e, 0)]
}

/// Every call made at sweep index `i`, in order.
pub open spec fn battery(msg: Seq<u8>, aux: Seq<u8>, cus: Seq<u8>, i: nat) -> Seq<Call> {
    cshake_part(Family::Cshake128, msg, aux, cus, i) + cshake_part(Family::Cshake256, msg, aux, cus, i)
        + kmac_part(Family::Kmac128, msg, aux, cus, i) + kmac_part(Family::Kmac256, msg, aux, cus, i)
        + k12_part(msg, cus, i) + b3_part(msg, i) + parallel_part(msg, cus, i)
        + tuple_part(Family::Tuple128, msg, cus, i) + tuple_part(Family::Tuple256, msg, cus, i)
}

/// Every call of a sweep over the indices `0..count`, in order.
pub open spec fn plan(msg: Seq<u8>, aux: Seq<u8>, cus: Seq<u8>, count: nat) -> Seq<Call>
    decreases count,
{
    if count == 0 {
        Seq::empty()
    } else {
        plan(msg, aux, cus, (count - 1) as nat) + battery(msg, aux, cus, (count - 1) as nat)
    }
}

/// The records are those of the calls, one for one, and each output has the
/// requested length.
pub open spec fn matches_plan(recs: Seq<TestRecord>, p: Seq<Call>) -> bool {
    &&& recs.len() == p.len()
    &&& forall|k: int| 0 <= k < p.len() ==> #[trigger] recs[k] == record_of(p[k])
    &&& forall|k: int| 0 <= k < p.len() ==> (#[trigger] recs[k]).exp.len() == p[k].out_len
}

/// Inputs the sweep can take: each buffer has at least `count` bytes and every
/// length involved has a bit count that fits a `usize`.
pub open spec fn sweep_inputs_ok(msg: Seq<u8>, aux: Seq<u8>, cus: Seq<u8>, count: nat) -> bool {
    &&& count <= msg.len()
    &&& count <= aux.len()
    &&& count <= cus.len()
    &&& bit_len_ok(msg.len())
    &&& bit_len_ok(aux.len())
    &&& bit_len_ok(cus.len())
}

impl TestCases {
    /// Makes one call of a family other than FF1 and records it.
    fn run(
        &mut self,
        Ghost(p): Ghost<Seq<Call>>,
        family: Family,
        data: &[u8],
        out_len: usize,
        name: &[u8],
        cust: &[u8],
        key: &[u8],
        block_len: u64,
    ) -> (c: Ghost<Call>)
        requires
            old(self).well_formed(),
            matches_plan(old(self).records(), p),
            family != Family::BinaryFf1,
            bit_len_ok(data@.len()),
            bit_len_ok(out_len as nat),
            bit_len_ok(name@.len()),
            bit_len_ok(cust@.len()),
            bit_len_ok(key@.len()),
            (family == Family::Parallel128 || family == Family::Parallel256) ==> 0 < block_len <= usize::MAX,
            family != Family::Cshake128 && family != Family::Cshake256 ==> name@ == Seq::<u8>::empty(),
            family != Family::Kmac128 && family != Family::Kmac256 ==> key@ == Seq::<u8>::empty(),
            family == Family::Blake3 ==> cust@ == Seq::<u8>::empty(),
            family != Family::Parallel128 && family != Family::Parallel256 ==> block_len == 0,
        ensures
            c@ == call(family, data@, out_len as nat, name@, cust@, key@, block_len),
            matches_plan(final(self).records(), p.push(c@)),
            final(self).well_formed(),
    {
        match family {
            Family::Cshake128 => self.cshake128(data, out_len, name, cust),
            Family::Cshake256 => self.cshake256(data, out_len, name, cust),
            Family::Kmac128 => self.kmac128(key, data, out_len, cust),
            Family::Kmac256 => self.kmac256(key, data, out_len, cust),
            Family::K12 => self.k12(data, out_len, cust),
            Family::Blake3 => self.b3(data, out_len),
            Family::Parallel128 => self.parallel128(data, block_len, out_len, cust),
            Family::Parallel256 => self.parallel256(data, block_len, out_len, cust),
            Family::Tuple128 => self.tuple128(data, out_len, cust),
            Family::Tuple256 => self.tuple256(data, out_len, cust),
            Family::BinaryFf1 => {},
        }
        let ghost c = call(family, data@, out_len as nat, name@, cust@, key@, block_len);
        assert forall|k: int| 0 <= k < p.push(c).len() implies #[trigger] self.records()[k]
            == record_of(p.push(c)[k]) && self.records()[k].exp.len() == p.push(c)[k].out_len by {
            if k < p.len() {
                assert(self.records()[k] == old(self).records()[k]);
            }
        }
        Ghost(c)
    }

    /// Issues the cSHAKE or KMAC calls of sweep index `i`.
    fn sweep_keyed(&mut self, Ghost(p): Ghost<Seq<Call>>, f: Family, msg: &[u8], aux: &[u8], cus: &[u8], i: usize)
        requires
            old(self).well_formed(),
            matches_plan(old(self).records(), p),
            f == Family::Cshake128 || f == Family::Cshake256 || f == Family::Kmac128 || f == Family::Kmac256,
            sweep_inputs_ok(msg@, aux@, cus@, i as nat),
        ensures
            (f == Family::Cshake128 || f == Family::Cshake256) ==> matches_plan(
                final(self).records(),
                p + cshake_part(f, msg@, aux@, cus@, i as nat),
            ),
            (f == Family::Kmac128 || f == Family::Kmac256) ==> matches_plan(
                final(self).records(),
                p + kmac_part(f, msg@, aux@, cus@, i as nat),
            ),
            final(self).well_formed(),
    {
        let ev: Vec<u8> = Vec::new();
        let e = ev.as_slice();
        assert(e@ =~= Seq::<u8>::empty());
        let m = slice_subrange(msg, 0, i);
        let a = slice_subrange(aux, 0, i);
        let c = slice_subrange(cus, 0, i);
        assert(m@ == msg@.take(i as int) && a@ == aux@.take(i as int) && c@ == cus@.take(i as int));
        let is_cshake = f == Family::Cshake128 || f == Family::Cshake256;
        let ghost mut q = p;
        let c0 = self.run(Ghost(q), f, m, DEFAULT_OUT, e, e, e, 0);
        proof { q = q.push(c0@); }
        if i >= 1 {
            let c1 = self.run(Ghost(q), f, e, i, e, e, e, 0);
            proof { q = q.push(c1@); }
        }
        if is_cshake {
            let c2 = self.run(Ghost(q), f, e, DEFAULT_OUT, a, e, e, 0);
            proof { q = q.push(c2@); }
        } else {
            let c2 = self.run(Ghost(q), f, e, DEFAULT_OUT, e, e, a, 0);
            proof { q = q.push(c2@); }
        }
        let c3 = self.run(Ghost(q), f, e, DEFAULT_OUT, e, c, e, 0);
        proof { q = q.push(c3@); }
        if is_cshake {
            assert(q =~= p + cshake_part(f, msg@, aux@, cus@, i as nat));
        } else {
            assert(q =~= p + kmac_part(f, msg@, aux@, cus@, i as nat));
        }
    }

    /// Issues the KangarooTwelve and BLAKE3 calls of sweep index `i`.
    fn sweep_xof(&mut self, Ghost(p): Ghost<Seq<Call>>, msg: &[u8], cus: &[u8], i: usize)
        requires
            old(self).well_formed(),
            matches_plan(old(self).records(), p),
            sweep_inputs_ok(msg@, cus@, cus@, i as nat),
        ensures
            matches_plan(final(self).records(), p + k12_part(msg@, cus@, i as nat) + b3_part(msg@, i as nat)),
            final(self).well_formed(),
    {
        let ev: Vec<u8> = Vec::new();
        let e = ev.as_slice();
        assert(e@ =~= Seq::<u8>::empty());
        let m = slice_subrange(msg, 0, i);
        let c = slice_subrange(cus, 0, i);
        assert(m@ == msg@.take(i as int) && c@ == cus@.take(i as int));
        let ghost mut q = p;
        let c0 = self.run(Ghost(q), Family::K12, m, DEFAULT_OUT, e, e, e, 0);
        proof { q = q.push(c0@); }
        if i >= 1 {
            let c1 = self.run(Ghost(q), Family::K12, e, i, e, e, e, 0);
            proof { q = q.push(c1@); }
        }
        let c2 = self.run(Ghost(q), Family::K12, e, DEFAULT_OUT, e, c, e, 0);
        proof { q = q.push(c2@); }
        let c3 = self.run(Ghost(q), Family::Blake3, m, DEFAULT_OUT, e, e, e, 0);
        proof { q = q.push(c3@); }
        if i >= 1 {
            let c4 = self.run(Ghost(q), Family::Blake3, e, i, e, e, e, 0);
            proof { q = q.push(c4@); }
        }
        assert(q =~= p + k12_part(msg@, cus@, i as nat) + b3_part(msg@, i as nat));
    }

    /// Issues the ParallelHash calls of sweep index `i` at block length `b`.
    fn sweep_parallel_block(&mut self, Ghost(p): Ghost<Seq<Call>>, msg: &[u8], cus: &[u8], i: usize, b: u64)
        requires
            old(self).well_formed(),
            matches_plan(old(self).records(), p),
            sweep_inputs_ok(msg@, cus@, cus@, i as nat),
            0 < b <= usize::MAX,
        ensures
            matches_plan(final(self).records(), p + parallel_block_part(msg@, cus@, i as nat, b)),
            final(self).well_formed(),
    {
        let ev: Vec<u8> = Vec::new();
        let e = ev.as_slice();
        assert(e@ =~= Seq::<u8>::empty());
        let m = slice_subrange(msg, 0, i);
        let c = slice_subrange(cus, 0, i);
        assert(m@ == msg@.take(i as int) && c@ == cus@.take(i as int));
        let ghost mut q = p;
        let c0 = self.run(Ghost(q), Family::Parallel128, m, DEFAULT_OUT, e, e, e, b);
        proof { q = q.push(c0@); }
        let c1 = self.run(Ghost(q), Family::Parallel128, e, DEFAULT_OUT, e, c, e, b);
        proof { q = q.push(c1@); }
        let c2 = self.run(Ghost(q), Family::Parallel128, e, DEFAULT_OUT, e, e, e, b);
        proof { q = q.push(c2@); }
        let c3 = self.run(Ghost(q), Family::Parallel256, m, DEFAULT_OUT, e, e, e, b);
        proof { q = q.push(c3@); }
        let c4 = self.run(Ghost(q), Family::Parallel256, e, DEFAULT_OUT, e, c, e, b);
        proof { q = q.push(c4@); }
        let c5 = self.run(Ghost(q), Family::Parallel256, e, DEFAULT_OUT, e, e, e, b);
        proof { q = q.push(c5@); }
        assert(q =~= p + parallel_block_part(msg@, cus@, i as nat, b));
    }

    /// Issues the ParallelHash calls of sweep index `i`.
    fn sweep_parallel(&mut self, Ghost(p): Ghost<Seq<Call>>, msg: &[u8], cus: &[u8], i: usize)
        requires
            old(self).well_formed(),
            matches_plan(old(self).records(), p),
            sweep_inputs_ok(msg@, cus@, cus@, i as nat),
        ensures
            matches_plan(final(self).records(), p + parallel_part(msg@, cus@, i as nat)),
            final(self).well_formed(),
    {
        let ev: Vec<u8> = Vec::new();
        let e = ev.as_slice();
        assert(e@ =~= Seq::<u8>::empty());
        let ghost q0 = p;
        self.sweep_parallel_block(Ghost(q0), msg, cus, i, 8);
        let ghost q1 = q0 + parallel_block_part(msg@, cus@, i as nat, 8);
        self.sweep_parallel_block(Ghost(q1), msg, cus, i, 16);
        let ghost q2 = q1 + parallel_block_part(msg@, cus@, i as nat, 16);
        self.sweep_parallel_block(Ghost(q2), msg, cus, i, 32);
        let ghost q3 = q2 + parallel_block_part(msg@, cus@, i as nat, 32);
        self.sweep_parallel_block(Ghost(q3), msg, cus, i, 64);
        let ghost q4 = q3 + parallel_block_part(msg@, cus@, i as nat, 64);
        self.sweep_parallel_block(Ghost(q4), msg, cus, i, 128);
        let ghost mut q = q4 + parallel_block_part(msg@, cus@, i as nat, 128);
        if i >= 1 {
            let c0 = self.run(Ghost(q), Family::Parallel128, e, i, e, e, e, 8);
            proof { q = q.push(c0@); }
            let c1 = self.run(Ghost(q), Family::Parallel256, e, i, e, e, e, 8);
            proof { q = q.push(c1@); }
        }
        assert(q =~= p + parallel_part(msg@, cus@, i as nat));
    }

    /// Issues the TupleHash calls of sweep index `i` for family `f`.
    fn sweep_tuple(&mut self, Ghost(p): Ghost<Seq<Call>>, f: Family, msg: &[u8], cus: &[u8], i: usize)
        requires
            old(self).well_formed(),
            matches_plan(old(self).records(), p),
            f == Family::Tuple128 || f == Family::Tuple256,
            sweep_inputs_ok(msg@, cus@, cus@, i as nat),
        ensures
            matches_plan(final(self).records(), p + tuple_part(f, msg@, cus@, i as nat)),
            final(self).well_formed(),
    {
        let ev: Vec<u8> = Vec::new();
        let e = ev.as_slice();
        assert(e@ =~= Seq::<u8>::empty());
        let m = slice_subrange(msg, 0, i);
        let c = slice_subrange(cus, 0, i);
        assert(m@ == msg@.take(i as int) && c@ == cus@.take(i as int));
        let ghost mut q = p;
        let c0 = self.run(Ghost(q), f, m, DEFAULT_OUT, e, e, e, 0);
        proof { q = q.push(c0@); }
        if i >= 1 {
            let c1 = self.run(Ghost(q), f, e, i, e, e, e, 0);
            proof { q = q.push(c1@); }
        }
        let c2 = self.run(Ghost(q), f, e, DEFAULT_OUT, e, c, e, 0);
        proof { q = q.push(c2@); }
        let c3 = self.run(Ghost(q), f, e, DEFAULT_OUT, e, e, e, 0);
        proof { q = q.push(c3@); }
        assert(q =~= p + tuple_part(f, msg@, cus@, i as nat));
    }

    /// Issues every call of sweep index `i`.
    fn sweep_index(&mut self, Ghost(p): Ghost<Seq<Call>>, msg: &[u8], aux: &[u8], cus: &[u8], i: usize)
        requires
            old(self).well_formed(),
            matches_plan(old(self).records(), p),
            sweep_inputs_ok(msg@, aux@, cus@, i as nat),
        ensures
            matches_plan(final(self).records(), p + battery(msg@, aux@, cus@, i as nat)),
            final(self).well_formed(),
    {
        let ghost n = i as nat;
        let ghost (m, a, c) = (msg@, aux@, cus@);
        let ghost q0 = p;
        self.sweep_keyed(Ghost(q0), Family::Cshake128, msg, aux, cus, i);
        let ghost q1 = q0 + cshake_part(Family::Cshake128, m, a, c, n);
        self.sweep_keyed(Ghost(q1), Family::Cshake256, msg, aux, cus, i);
        let ghost q2 = q1 + cshake_part(Family::Cshake256, m, a, c, n);
        self.sweep_keyed(Ghost(q2), Family::Kmac128, msg, aux, cus, i);
        let ghost q3 = q2 + kmac_part(Family::Kmac128, m, a, c, n);
        self.sweep_keyed(Ghost(q3), Family::Kmac256, msg, aux, cus, i);
        let ghost q4 = q3 + kmac_part(Family::Kmac256, m, a, c, n);
        self.sweep_xof(Ghost(q4), msg, cus, i);
        let ghost q5 = q4 + k12_part(m, c, n) + b3_part(m, n);
        self.sweep_parallel(Ghost(q5), msg, cus, i);
        let ghost q6 = q5 + parallel_part(m, c, n);
        self.sweep_tuple(Ghost(q6), Family::Tuple128, msg, cus, i);
        let ghost q7 = q6 + tuple_part(Family::Tuple128, m, c, n);
        self.sweep_tuple(Ghost(q7), Family::Tuple256, msg, cus, i);
        let ghost q8 = q7 + tuple_part(Family::Tuple256, m, c, n);
        assert(q8 =~= p + battery(m, a, c, n));
    }
}

/// Runs the sweep over the indices `0..count`: message bytes come from
/// `msg`, names and keys from `aux`, customization strings from `cus`. The
/// corpus holds the record of every call of `plan`, in order, and each
/// output has the length that its call requested.
pub fn generate(msg: &[u8], aux: &[u8], cus: &[u8], count: usize) -> (r: TestCases)
    requires
        sweep_inputs_ok(msg@, aux@, cus@, count as nat),
    ensures
        matches_plan(r.records(), plan(msg@, aux@, cus@, count as nat)),
        r.well_formed(),
{
    let mut r = TestCases::new();
    let mut i: usize = 0;
    while i < count
        invariant
            i <= count,
            sweep_inputs_ok(msg@, aux@, cus@, count as nat),
            matches_plan(r.records(), plan(msg@, aux@, cus@, i as nat)),
            r.well_formed(),
        decreases count - i,
    {
        r.sweep_index(Ghost(plan(msg@, aux@, cus@, i as nat)), msg, aux, cus, i);
        i = i + 1;
    }
    r
}

/// Seed of the message buffer.
pub const MESSAGE_SEED: u8 = 1;

/// Seed of the buffer that names and keys are cut from.
pub const AUX_SEED: u8 = 2;

/// Seed of the buffer that customization strings are cut from.
pub const CUSTOM_SEED: u8 = 3;

/// Length of each seeded buffer.
pub const BUFFER_LEN: usize = 4096;

/// Number of sweep indices in the full corpus.
pub const SWEEP_COUNT: usize = 512;

/// The three seeded buffers the sweep reads from.
pub open spec fn seeded_buffers() -> (Seq<u8>, Seq<u8>, Seq<u8>) {
    (
        random_bytes(MESSAGE_SEED, BUFFER_LEN as nat),
        random_bytes(AUX_SEED, BUFFER_LEN as nat),
        random_bytes(CUSTOM_SEED, BUFFER_LEN as nat),
    )
}

/// The calls of a sweep over `0..count` on the seeded buffers.
pub open spec fn seeded_plan(count: nat) -> Seq<Call> {
    plan(seeded_buffers().0, seeded_buffers().1, seeded_buffers().2, count)
}

/// The corpus of a sweep over `0..count` on the seeded buffers.
pub fn corpus(count: usize) -> (r: TestCases)
    requires
        count <= BUFFER_LEN,
    ensures
        matches_plan(r.records(), seeded_plan(count as nat)),
        r.well_formed(),
{
    let msg = random(MESSAGE_SEED, BUFFER_LEN);
    let aux = random(AUX_SEED, BUFFER_LEN);
    let cus = random(CUSTOM_SEED, BUFFER_LEN);
    generate(msg.as_slice(), aux.as_slice(), cus.as_slice(), count)
}

} // verus!
