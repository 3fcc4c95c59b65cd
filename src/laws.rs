//! Properties of the corpus, stated over the plan of calls and proved.
use vstd::prelude::*;
use crate::record::{call, fields_match, record_of, replays, Call, Family, TestCases};
use crate::sweep::{
    b3_part, battery, cshake_part, k12_part, kmac_part, matches_plan, parallel_block_part,
    parallel_part, plan, seeded_plan, tuple_part, unless_zero,
};

verus! {

/// Two sweeps over the seeded buffers with the same count give the same
/// records, byte for byte: nothing but the seeds and the count decides them.
pub proof fn lemma_deterministic(a: TestCases, b: TestCases, count: nat)
    requires
        matches_plan(a.records(), seeded_plan(count)),
        matches_plan(b.records(), seeded_plan(count)),
    ensures
        a.records() == b.records(),
{
    assert(a.records() =~= b.records());
}

/// In a well-formed corpus each optional field of a record is present exactly
/// when its family takes that parameter.
pub proof fn lemma_field_presence(r: TestCases)
    requires
        r.well_formed(),
    ensures
        forall|k: int| 0 <= k < r.records().len() ==> fields_match(#[trigger] r.records()[k]),
{
}

/// In a well-formed corpus, feeding a record's fields back into its primitive
/// reproduces its expected output.
pub proof fn lemma_replay(r: TestCases)
    requires
        r.well_formed(),
    ensures
        forall|k: int| 0 <= k < r.records().len() ==> replays(#[trigger] r.records()[k]),
{
}

/// The output length a call at sweep index `i` may request: the default, or
/// `i` itself on the output-length variation, which never runs at zero.
pub open spec fn out_len_at(c: Call, i: nat) -> bool {
    c.out_len == 16 || (c.out_len == i && i >= 1)
}

pub open spec fn out_lens_at(s: Seq<Call>, i: nat) -> bool {
    forall|j: int| 0 <= j < s.len() ==> out_len_at(#[trigger] s[j], i)
}

proof fn lemma_out_lens_concat(a: Seq<Call>, b: Seq<Call>, i: nat)
    requires
        out_lens_at(a, i),
        out_lens_at(b, i),
    ensures
        out_lens_at(a + b, i),
{
    assert forall|j: int| 0 <= j < (a + b).len() implies out_len_at(#[trigger] (a + b)[j], i) by {
        if j >= a.len() {
            assert((a + b)[j] == b[j - a.len()]);
        }
    }
}

/// Every call at sweep index `i` requests 16 bytes, or `i` bytes when `i` is
/// at least one.
pub proof fn lemma_out_lens(msg: Seq<u8>, aux: Seq<u8>, cus: Seq<u8>, i: nat)
    ensures
        out_lens_at(battery(msg, aux, cus, i), i),
{
    let e = Seq::<u8>::empty();
    let ph = parallel_block_part(msg, cus, i, 8) + parallel_block_part(msg, cus, i, 16)
        + parallel_block_part(msg, cus, i, 32) + parallel_block_part(msg, cus, i, 64)
        + parallel_block_part(msg, cus, i, 128);
    let pt = unless_zero(
        i,
        seq![call(Family::Parallel128, e, i, e, e, e, 8), call(Family::Parallel256, e, i, e, e, e, 8)],
    );
    assert(out_lens_at(parallel_block_part(msg, cus, i, 8), i));
    assert(out_lens_at(parallel_block_part(msg, cus, i, 16), i));
    assert(out_lens_at(parallel_block_part(msg, cus, i, 32), i));
    assert(out_lens_at(parallel_block_part(msg, cus, i, 64), i));
    assert(out_lens_at(parallel_block_part(msg, cus, i, 128), i));
    lemma_out_lens_concat(parallel_block_part(msg, cus, i, 8), parallel_block_part(msg, cus, i, 16), i);
    lemma_out_lens_concat(
        parallel_block_part(msg, cus, i, 8) + parallel_block_part(msg, cus, i, 16),
        parallel_block_part(msg, cus, i, 32),
        i,
    );
    lemma_out_lens_concat(
        parallel_block_part(msg, cus, i, 8) + parallel_block_part(msg, cus, i, 16)
            + parallel_block_part(msg, cus, i, 32),
        parallel_block_part(msg, cus, i, 64),
        i,
    );
    lemma_out_lens_concat(
        parallel_block_part(msg, cus, i, 8) + parallel_block_part(msg, cus, i, 16)
            + parallel_block_part(msg, cus, i, 32) + parallel_block_part(msg, cus, i, 64),
        parallel_block_part(msg, cus, i, 128),
        i,
    );
    assert(out_lens_at(pt, i));
    lemma_out_lens_concat(ph, pt, i);
    let parts = seq![
        cshake_part(Family::Cshake128, msg, aux, cus, i),
        cshake_part(Family::Cshake256, msg, aux, cus, i),
        kmac_part(Family::Kmac128, msg, aux, cus, i),
        kmac_part(Family::Kmac256, msg, aux, cus, i),
        k12_part(msg, cus, i),
        b3_part(msg, i),
        parallel_part(msg, cus, i),
        tuple_part(Family::Tuple128, msg, cus, i),
        tuple_part(Family::Tuple256, msg, cus, i),
    ];
    assert forall|t: int| 0 <= t < 9 implies out_lens_at(#[trigger] parts[t], i) by {}
    lemma_out_lens_concat(parts[0], parts[1], i);
    lemma_out_lens_concat(parts[0] + parts[1], parts[2], i);
    lemma_out_lens_concat(parts[0] + parts[1] + parts[2], parts[3], i);
    lemma_out_lens_concat(parts[0] + parts[1] + parts[2] + parts[3], parts[4], i);
    lemma_out_lens_concat(parts[0] + parts[1] + parts[2] + parts[3] + parts[4], parts[5], i);
    lemma_out_lens_concat(parts[0] + parts[1] + parts[2] + parts[3] + parts[4] + parts[5], parts[6], i);
    lemma_out_lens_concat(
        parts[0] + parts[1] + parts[2] + parts[3] + parts[4] + parts[5] + parts[6],
        parts[7],
        i,
    );
    lemma_out_lens_concat(
        parts[0] + parts[1] + parts[2] + parts[3] + parts[4] + parts[5] + parts[6] + parts[7],
        parts[8],
        i,
    );
}


/// The calls of sweep index `i` stand in the plan of any longer sweep, right
/// after those of the indices before `i`.
pub proof fn lemma_plan_holds_battery(msg: Seq<u8>, aux: Seq<u8>, cus: Seq<u8>, i: nat, count: nat)
    requires
        i < count,
    ensures
        plan(msg, aux, cus, i).len() + battery(msg, aux, cus, i).len() <= plan(msg, aux, cus, count).len(),
        forall|j: int| 0 <= j < battery(msg, aux, cus, i).len()
            ==> plan(msg, aux, cus, count)[plan(msg, aux, cus, i).len() + j] == #[trigger] battery(msg, aux, cus, i)[j],
    decreases count,
{
    let b = battery(msg, aux, cus, i);
    let pi = plan(msg, aux, cus, i);
    if count == i + 1 {
        assert forall|j: int| 0 <= j < b.len() implies plan(msg, aux, cus, count)[pi.len() + j] == #[trigger] b[j] by {
            assert(plan(msg, aux, cus, count) == pi + b);
        }
    } else {
        lemma_plan_holds_battery(msg, aux, cus, i, (count - 1) as nat);
        let prev = plan(msg, aux, cus, (count - 1) as nat);
        assert(plan(msg, aux, cus, count) == prev + battery(msg, aux, cus, (count - 1) as nat));
        assert forall|j: int| 0 <= j < b.len() implies plan(msg, aux, cus, count)[pi.len() + j] == #[trigger] b[j] by {
            assert(prev[pi.len() + j] == b[j]);
        }
    }
}

/// Length correspondence, from the sweep index: in a corpus that matches the
/// plan, the record of the `j`-th call of sweep index `i` has an expected
/// output of the length that call requested, which is 16, or `i` when `i` is
/// at least one.
pub proof fn lemma_record_out_len(msg: Seq<u8>, aux: Seq<u8>, cus: Seq<u8>, count: nat, r: TestCases, i: nat, j: int)
    requires
        matches_plan(r.records(), plan(msg, aux, cus, count)),
        i < count,
        0 <= j < battery(msg, aux, cus, i).len(),
    ensures
        r.records()[plan(msg, aux, cus, i).len() + j].exp.len() == battery(msg, aux, cus, i)[j].out_len,
        out_len_at(battery(msg, aux, cus, i)[j], i),
{
    lemma_plan_holds_battery(msg, aux, cus, i, count);
    lemma_out_lens(msg, aux, cus, i);
}

/// The TupleHash call with no elements and all defaults.
pub open spec fn empty_tuple_call(f: Family) -> Call {
    call(f, Seq::empty(), 16, Seq::empty(), Seq::empty(), Seq::empty(), 0)
}

/// Position, within the calls of one sweep index, of the empty TupleHash128
/// call: the last TupleHash128 call.
pub open spec fn empty_tuple128_at(msg: Seq<u8>, aux: Seq<u8>, cus: Seq<u8>, i: nat) -> int {
    battery(msg, aux, cus, i).len() - tuple_part(Family::Tuple256, msg, cus, i).len() - 1
}

/// At every sweep index the corpus holds the record of the empty TupleHash128
/// call, and these records are all one and the same value.
pub proof fn lemma_empty_tuple_each_index(msg: Seq<u8>, aux: Seq<u8>, cus: Seq<u8>, count: nat, r: TestCases, i: nat)
    requires
        matches_plan(r.records(), plan(msg, aux, cus, count)),
        i < count,
    ensures
        0 <= empty_tuple128_at(msg, aux, cus, i) < battery(msg, aux, cus, i).len(),
        r.records()[plan(msg, aux, cus, i).len() + empty_tuple128_at(msg, aux, cus, i)]
            == record_of(empty_tuple_call(Family::Tuple128)),
        r.records()[plan(msg, aux, cus, i).len() + empty_tuple128_at(msg, aux, cus, i)].exp.len() == 16,
{
    let b = battery(msg, aux, cus, i);
    let t1 = tuple_part(Family::Tuple128, msg, cus, i);
    let t2 = tuple_part(Family::Tuple256, msg, cus, i);
    let head = cshake_part(Family::Cshake128, msg, aux, cus, i) + cshake_part(Family::Cshake256, msg, aux, cus, i)
        + kmac_part(Family::Kmac128, msg, aux, cus, i) + kmac_part(Family::Kmac256, msg, aux, cus, i)
        + k12_part(msg, cus, i) + b3_part(msg, i) + parallel_part(msg, cus, i);
    assert(b == head + t1 + t2);
    assert(t1.last() == empty_tuple_call(Family::Tuple128));
    assert(b[empty_tuple128_at(msg, aux, cus, i)] == t1.last());
    lemma_plan_holds_battery(msg, aux, cus, i, count);
}


/// `a` is a prefix of `b`.
pub open spec fn is_prefix(a: Seq<u8>, b: Seq<u8>) -> bool {
    a.len() <= b.len() && b.take(a.len() as int) == a
}

/// Two calls of one family and one variation type at two sweep indices:
/// each byte parameter of the first is a prefix of the second's, and the
/// block length agrees.
pub open spec fn prefix_related(c1: Call, c2: Call) -> bool {
    &&& c1.family == c2.family
    &&& c1.block_len == c2.block_len
    &&& is_prefix(c1.data, c2.data)
    &&& is_prefix(c1.name, c2.name)
    &&& is_prefix(c1.cust, c2.cust)
    &&& is_prefix(c1.key, c2.key)
}

pub open spec fn pointwise_prefix(s1: Seq<Call>, s2: Seq<Call>) -> bool {
    &&& s1.len() == s2.len()
    &&& forall|j: int| 0 <= j < s1.len() ==> prefix_related(#[trigger] s1[j], s2[j])
}

proof fn lemma_pointwise_concat(a1: Seq<Call>, a2: Seq<Call>, b1: Seq<Call>, b2: Seq<Call>)
    requires
        pointwise_prefix(a1, a2),
        pointwise_prefix(b1, b2),
    ensures
        pointwise_prefix(a1 + b1, a2 + b2),
{
    assert forall|j: int| 0 <= j < (a1 + b1).len() implies prefix_related(#[trigger] (a1 + b1)[j], (a2 + b2)[j]) by {
        if j >= a1.len() {
            assert((a1 + b1)[j] == b1[j - a1.len()]);
            assert((a2 + b2)[j] == b2[j - a1.len()]);
        } else {
            assert((a1 + b1)[j] == a1[j]);
            assert((a2 + b2)[j] == a2[j]);
        }
    }
}

proof fn lemma_take_prefix(s: Seq<u8>, i1: nat, i2: nat)
    requires
        i1 <= i2 <= s.len(),
    ensures
        is_prefix(s.take(i1 as int), s.take(i2 as int)),
        is_prefix(Seq::<u8>::empty(), Seq::<u8>::empty()),
{
    assert(s.take(i2 as int).take(i1 as int) =~= s.take(i1 as int));
    assert(Seq::<u8>::empty().take(0) =~= Seq::<u8>::empty());
}

/// Prefix consistency: between two sweep indices `1 <= i1 <= i2`, the calls
/// stand at the same positions, and each byte parameter of a call at `i1` is
/// a prefix of the same parameter of the call at `i2` in that position (all
/// are cut from the same buffers).
pub proof fn lemma_prefix_consistency(msg: Seq<u8>, aux: Seq<u8>, cus: Seq<u8>, i1: nat, i2: nat)
    requires
        1 <= i1 <= i2,
        i2 <= msg.len(),
        i2 <= aux.len(),
        i2 <= cus.len(),
    ensures
        pointwise_prefix(battery(msg, aux, cus, i1), battery(msg, aux, cus, i2)),
{
    lemma_take_prefix(msg, i1, i2);
    lemma_take_prefix(aux, i1, i2);
    lemma_take_prefix(cus, i1, i2);
    assert(pointwise_prefix(cshake_part(Family::Cshake128, msg, aux, cus, i1), cshake_part(Family::Cshake128, msg, aux, cus, i2)));
    assert(pointwise_prefix(cshake_part(Family::Cshake256, msg, aux, cus, i1), cshake_part(Family::Cshake256, msg, aux, cus, i2)));
    assert(pointwise_prefix(kmac_part(Family::Kmac128, msg, aux, cus, i1), kmac_part(Family::Kmac128, msg, aux, cus, i2)));
    assert(pointwise_prefix(kmac_part(Family::Kmac256, msg, aux, cus, i1), kmac_part(Family::Kmac256, msg, aux, cus, i2)));
    assert(pointwise_prefix(k12_part(msg, cus, i1), k12_part(msg, cus, i2)));
    assert(pointwise_prefix(b3_part(msg, i1), b3_part(msg, i2)));
    assert(pointwise_prefix(tuple_part(Family::Tuple128, msg, cus, i1), tuple_part(Family::Tuple128, msg, cus, i2)));
    assert(pointwise_prefix(tuple_part(Family::Tuple256, msg, cus, i1), tuple_part(Family::Tuple256, msg, cus, i2)));
}


/// At sweep index zero every byte parameter of every call is empty, hence a
/// prefix of the same parameter at any later index.
pub proof fn lemma_index_zero_empty(msg: Seq<u8>, aux: Seq<u8>, cus: Seq<u8>)
    ensures
        forall|j: int| 0 <= j < battery(msg, aux, cus, 0).len() ==> {
            let c = #[trigger] battery(msg, aux, cus, 0)[j];
            c.data.len() == 0 && c.name.len() == 0 && c.cust.len() == 0 && c.key.len() == 0
        },
{
}

} // verus!
