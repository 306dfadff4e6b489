//! The feature combiner: turns one example's record buffer into a flat
//! output buffer of `(hash, weight-bits)` pairs behind a leading label.
//!
//! A record buffer is a `u32` sequence: slot 0 is reserved, slot 1 is the
//! label, then for each namespace index `i` the two header slots
//! `HEADER_LEN + 2*i` and `HEADER_LEN + 2*i + 1` give a half-open
//! `[start, end)` range into the tail where that namespace's raw hashes
//! live.  `start == end` means the namespace is absent for this example.
//!
//! Per combo descriptor the combiner forms the full cross product of the
//! descriptor's namespaces, folding raw hashes into partial hashes with the
//! selected combination rule, and emits one `(hash, weight-bits)` pair per
//! surviving partial hash.  A descriptor with any absent namespace emits
//! nothing: its cross product is empty ("no feature is no feature").

use crate::float_bits::ONE_BITS;
use crate::model_instance::{FeatureComboDesc, ModelInstance};
use vstd::prelude::*;

verus! {

/// Slots reserved at the front of a record buffer before the per-namespace
/// `[start, end)` offset pairs; shared with the record-reader collaborator.
pub const HEADER_LEN: usize = 2;

/// The multiplier folded into a partial hash under the Vowpal rule.
pub const VOWPAL_FNV_PRIME: u32 = 16777619;

/// The well-known hash of the synthetic constant (bias) feature.
pub const CONSTANT_HASH: u32 = 11650396;

/// Which rule folds a raw hash into a partial hash during crossing.
#[derive(Clone, Copy)]
pub enum HashScheme {
    /// `raw ^ (partial * VOWPAL_FNV_PRIME)`, 32-bit wraparound multiply.
    Vowpal,
    /// `partial + raw`, 32-bit wraparound add.
    Fwumnious,
}

/// One crossing step: fold raw hash `h` into partial hash `p`.
pub open spec fn combine(s: HashScheme, p: u32, h: u32) -> u32 {
    match s {
        HashScheme::Vowpal => h ^ p.wrapping_mul(VOWPAL_FNV_PRIME),
        HashScheme::Fwumnious => p.wrapping_add(h),
    }
}

/// Start of namespace `idx`'s raw-hash range in record buffer `rb`.
pub open spec fn ns_start(rb: Seq<u32>, idx: usize) -> int {
    rb[2 * (idx as int) + (HEADER_LEN as int)] as int
}

/// End of namespace `idx`'s raw-hash range in record buffer `rb`.
pub open spec fn ns_end(rb: Seq<u32>, idx: usize) -> int {
    rb[2 * (idx as int) + (HEADER_LEN as int) + 1] as int
}

/// The raw hashes of namespace `idx` for this example.
pub open spec fn ns_range(rb: Seq<u32>, idx: usize) -> Seq<u32> {
    rb.subrange(ns_start(rb, idx), ns_end(rb, idx))
}

/// Namespace `idx`'s header slots exist and its range lies in the buffer.
pub open spec fn ns_valid(rb: Seq<u32>, idx: usize) -> bool {
    &&& 2 * (idx as int) + (HEADER_LEN as int) + 1 < rb.len()
    &&& ns_start(rb, idx) <= ns_end(rb, idx)
    &&& ns_end(rb, idx) <= rb.len()
}

pub open spec fn indices_valid(rb: Seq<u32>, indices: Seq<usize>) -> bool {
    forall|k: int| 0 <= k < indices.len() ==> ns_valid(rb, #[trigger] indices[k])
}

/// A record buffer is well formed for a descriptor list when it has a label
/// slot and every namespace any descriptor names has a valid range.
pub open spec fn record_valid(rb: Seq<u32>, descs: Seq<FeatureComboDesc>) -> bool {
    &&& rb.len() >= 2
    &&& forall|d: int|
        0 <= d < descs.len() ==> indices_valid(rb, #[trigger] descs[d].feature_indices@)
}

/// One row of a crossing step: raw hash `h` folded into every partial hash
/// of `prev`, in `prev` order.
pub open spec fn cross_row(s: HashScheme, prev: Seq<u32>, h: u32) -> Seq<u32> {
    Seq::new(prev.len(), |j: int| combine(s, prev[j], h))
}

/// A full crossing step: one row per raw hash, raw hashes in the outer
/// position (first namespace varies slowest).
pub open spec fn cross_step(s: HashScheme, prev: Seq<u32>, raws: Seq<u32>) -> Seq<u32>
    decreases raws.len(),
{
    if raws.len() == 0 {
        Seq::empty()
    } else {
        cross_step(s, prev, raws.drop_last()) + cross_row(s, prev, raws.last())
    }
}

/// The surviving partial hashes of a descriptor: the working set starts as
/// the single value 0 and is replaced by one crossing step per namespace.
pub open spec fn combo_hashes(s: HashScheme, rb: Seq<u32>, indices: Seq<usize>) -> Seq<u32>
    decreases indices.len(),
{
    if indices.len() == 0 {
        seq![0u32]
    } else {
        cross_step(s, combo_hashes(s, rb, indices.drop_last()), ns_range(rb, indices.last()))
    }
}

/// The emitted pairs of one descriptor: each surviving hash followed by the
/// descriptor's weight bits.
pub open spec fn pairs_of(hashes: Seq<u32>, weight_bits: u32) -> Seq<u32>
    decreases hashes.len(),
{
    if hashes.len() == 0 {
        Seq::empty()
    } else {
        pairs_of(hashes.drop_last(), weight_bits) + seq![hashes.last(), weight_bits]
    }
}

/// All pairs of a descriptor list, in descriptor order.
pub open spec fn descs_pairs(s: HashScheme, rb: Seq<u32>, descs: Seq<FeatureComboDesc>) -> Seq<u32>
    decreases descs.len(),
{
    if descs.len() == 0 {
        Seq::empty()
    } else {
        descs_pairs(s, rb, descs.drop_last()) + pairs_of(
            combo_hashes(s, rb, descs.last().feature_indices@),
            descs.last().weight_bits,
        )
    }
}

/// The whole output buffer: the label, every descriptor's pairs, and, when
/// configured, the synthetic constant pair.
pub open spec fn translate_spec(
    s: HashScheme,
    rb: Seq<u32>,
    descs: Seq<FeatureComboDesc>,
    add_constant: bool,
) -> Seq<u32> {
    seq![rb[1]] + descs_pairs(s, rb, descs) + if add_constant {
        seq![CONSTANT_HASH, ONE_BITS]
    } else {
        Seq::<u32>::empty()
    }
}

/// The feature combiner: borrows the configuration and owns the output
/// buffer it refills on every call.
pub struct FeatureBuffer<'a> {
    pub model_instance: &'a ModelInstance,
    pub output_buffer: Vec<u32>,
}

impl<'a> FeatureBuffer<'a> {
    pub fn new(model_instance: &'a ModelInstance) -> (fb: FeatureBuffer<'a>)
        ensures
            fb.model_instance == model_instance,
            fb.output_buffer@.len() == 0,
    {
        FeatureBuffer { model_instance, output_buffer: Vec::with_capacity(1024) }
    }

    /// Refill the output buffer under the Vowpal combination rule.
    pub fn translate_vowpal(&mut self, record_buffer: &Vec<u32>)
        requires
            record_valid(record_buffer@, old(self).model_instance.feature_combo_descs@),
        ensures
            final(self).model_instance == old(self).model_instance,
            final(self).output_buffer@ == translate_spec(
                HashScheme::Vowpal,
                record_buffer@,
                old(self).model_instance.feature_combo_descs@,
                old(self).model_instance.add_constant_feature,
            ),
    {
        self.translate_with(record_buffer, HashScheme::Vowpal)
    }

    /// Refill the output buffer under the wraparound-sum combination rule.
    pub fn translate_fwumnious(&mut self, record_buffer: &Vec<u32>)
        requires
            record_valid(record_buffer@, old(self).model_instance.feature_combo_descs@),
        ensures
            final(self).model_instance == old(self).model_instance,
            final(self).output_buffer@ == translate_spec(
                HashScheme::Fwumnious,
                record_buffer@,
                old(self).model_instance.feature_combo_descs@,
                old(self).model_instance.add_constant_feature,
            ),
    {
        self.translate_with(record_buffer, HashScheme::Fwumnious)
    }

    fn translate_with(&mut self, record_buffer: &Vec<u32>, scheme: HashScheme)
        requires
            record_valid(record_buffer@, old(self).model_instance.feature_combo_descs@),
        ensures
            final(self).model_instance == old(self).model_instance,
            final(self).output_buffer@ == translate_spec(
                scheme,
                record_buffer@,
                old(self).model_instance.feature_combo_descs@,
                old(self).model_instance.add_constant_feature,
            ),
    {
        let mi: &ModelInstance = self.model_instance;
        let ghost rb: Seq<u32> = record_buffer@;
        let ghost descs: Seq<FeatureComboDesc> = mi.feature_combo_descs@;
        self.output_buffer.clear();
        self.output_buffer.push(record_buffer[1]);
        let mut hashes_vec_in: Vec<u32> = Vec::with_capacity(100);
        let mut hashes_vec_out: Vec<u32> = Vec::with_capacity(100);
        let descs_n = mi.feature_combo_descs.len();
        assert(self.output_buffer@ =~= seq![rb[1]] + descs_pairs(scheme, rb, descs.take(0)));
        for d in 0..descs_n
            invariant
                self.model_instance == mi,
                mi.feature_combo_descs@ == descs,
                record_buffer@ == rb,
                descs_n == descs.len(),
                record_valid(rb, descs),
                self.output_buffer@ == seq![rb[1]] + descs_pairs(scheme, rb, descs.take(d as int)),
        {
            let desc = &mi.feature_combo_descs[d];
            let feature_combo_weight_u32 = desc.weight_bits;
            let ghost indices: Seq<usize> = desc.feature_indices@;
            hashes_vec_in.clear();
            hashes_vec_out.clear();
            hashes_vec_in.push(0);
            assert(indices_valid(rb, indices));
            assert(hashes_vec_in@ =~= combo_hashes(scheme, rb, indices.take(0)));
            let idx_n = desc.feature_indices.len();
            for f in 0..idx_n
                invariant
                    self.model_instance == mi,
                    mi.feature_combo_descs@ == descs,
                    record_buffer@ == rb,
                    descs_n == descs.len(),
                    record_valid(rb, descs),
                    d < descs.len(),
                    desc.feature_indices@ == indices,
                    desc.weight_bits == feature_combo_weight_u32,
                    idx_n == indices.len(),
                    indices_valid(rb, indices),
                    hashes_vec_in@ == combo_hashes(scheme, rb, indices.take(f as int)),
                    hashes_vec_out@.len() == 0,
                    self.output_buffer@ == seq![rb[1]] + descs_pairs(
                        scheme,
                        rb,
                        descs.take(d as int),
                    ),
            {
                let feature_index: usize = desc.feature_indices[f];
                assert(ns_valid(rb, feature_index));
                let rblen = record_buffer.len();
                assert(2 * (feature_index as int) + (HEADER_LEN as int) + 1 < rblen as int);
                let feature_index_offset = feature_index * 2 + HEADER_LEN;
                let start = record_buffer[feature_index_offset] as usize;
                let end = record_buffer[feature_index_offset + 1] as usize;
                let ghost prev: Seq<u32> = hashes_vec_in@;
                let ghost raws: Seq<u32> = ns_range(rb, feature_index);
                let prev_len = hashes_vec_in.len();
                assert(raws.len() == end - start);
                assert(hashes_vec_out@ =~= cross_step(scheme, prev, raws.take(0)));
                for hash_offset in start..end
                    invariant
                        self.model_instance == mi,
                        mi.feature_combo_descs@ == descs,
                        record_buffer@ == rb,
                        descs_n == descs.len(),
                        record_valid(rb, descs),
                        d < descs.len(),
                        desc.feature_indices@ == indices,
                        desc.weight_bits == feature_combo_weight_u32,
                        idx_n == indices.len(),
                        f < indices.len(),
                        indices_valid(rb, indices),
                        hashes_vec_in@ == prev,
                        prev_len == prev.len(),
                        start == ns_start(rb, feature_index),
                        end == ns_end(rb, feature_index),
                        ns_valid(rb, feature_index),
                        raws == ns_range(rb, feature_index),
                        raws.len() == end - start,
                        hashes_vec_out@ == cross_step(
                            scheme,
                            prev,
                            raws.take(hash_offset - start),
                        ),
                        self.output_buffer@ == seq![rb[1]] + descs_pairs(
                            scheme,
                            rb,
                            descs.take(d as int),
                        ),
                {
                    let h = record_buffer[hash_offset];
                    let ghost i: int = hash_offset - start;
                    assert(h == raws[i]);
                    for j in 0..prev_len
                        invariant
                            self.model_instance == mi,
                            mi.feature_combo_descs@ == descs,
                            record_buffer@ == rb,
                            descs_n == descs.len(),
                            record_valid(rb, descs),
                            d < descs.len(),
                            desc.feature_indices@ == indices,
                            desc.weight_bits == feature_combo_weight_u32,
                            idx_n == indices.len(),
                            f < indices.len(),
                            indices_valid(rb, indices),
                            hashes_vec_in@ == prev,
                            prev_len == prev.len(),
                            start == ns_start(rb, feature_index),
                            end == ns_end(rb, feature_index),
                            ns_valid(rb, feature_index),
                            raws == ns_range(rb, feature_index),
                            raws.len() == end - start,
                            start <= hash_offset < end,
                            i == hash_offset - start,
                            h == raws[i],
                            hashes_vec_out@ == cross_step(scheme, prev, raws.take(i)) + cross_row(
                                scheme,
                                prev,
                                h,
                            ).take(j as int),
                            self.output_buffer@ == seq![rb[1]] + descs_pairs(
                                scheme,
                                rb,
                                descs.take(d as int),
                            ),
                    {
                        let ph = hashes_vec_in[j];
                        let nh = match scheme {
                            HashScheme::Vowpal => h ^ ph.wrapping_mul(VOWPAL_FNV_PRIME),
                            HashScheme::Fwumnious => ph.wrapping_add(h),
                        };
                        assert(nh == combine(scheme, prev[j as int], h));
                        proof {
                            assert(cross_row(scheme, prev, h).take(j as int).push(
                                combine(scheme, prev[j as int], h),
                            ) =~= cross_row(scheme, prev, h).take(j as int + 1));
                        }
                        hashes_vec_out.push(nh);
                    }
                    proof {
                        assert(cross_row(scheme, prev, h).take(prev.len() as int) =~= cross_row(
                            scheme,
                            prev,
                            h,
                        ));
                        assert(raws.take(i + 1).drop_last() =~= raws.take(i));
                        assert(raws.take(i + 1).last() == raws[i]);
                        assert(cross_step(scheme, prev, raws.take(i + 1)) == cross_step(
                            scheme,
                            prev,
                            raws.take(i),
                        ) + cross_row(scheme, prev, raws[i]));
                    }
                }
                proof {
                    assert(raws.take(raws.len() as int) =~= raws);
                    assert(indices.take(f as int + 1).drop_last() =~= indices.take(f as int));
                    assert(indices.take(f as int + 1).last() == indices[f as int]);
                }
                hashes_vec_in.clear();
                let tmp = hashes_vec_in;
                hashes_vec_in = hashes_vec_out;
                hashes_vec_out = tmp;
                assert(hashes_vec_in@ == combo_hashes(scheme, rb, indices.take(f as int + 1)));
            }
            assert(indices.take(idx_n as int) =~= indices);
            let ghost hv: Seq<u32> = hashes_vec_in@;
            let ghost base: Seq<u32> = self.output_buffer@;
            let m = hashes_vec_in.len();
            assert(base + pairs_of(hv.take(0), feature_combo_weight_u32) =~= base);
            for j in 0..m
                invariant
                    self.model_instance == mi,
                    mi.feature_combo_descs@ == descs,
                    record_buffer@ == rb,
                    descs_n == descs.len(),
                    record_valid(rb, descs),
                    d < descs.len(),
                    desc.feature_indices@ == indices,
                    desc.weight_bits == feature_combo_weight_u32,
                    hashes_vec_in@ == hv,
                    m == hv.len(),
                    hv == combo_hashes(scheme, rb, indices),
                    base == seq![rb[1]] + descs_pairs(scheme, rb, descs.take(d as int)),
                    self.output_buffer@ == base + pairs_of(
                        hv.take(j as int),
                        feature_combo_weight_u32,
                    ),
            {
                self.output_buffer.push(hashes_vec_in[j]);
                self.output_buffer.push(feature_combo_weight_u32);
                proof {
                    lemma_pairs_of_take_step(hv, feature_combo_weight_u32, j as int);
                    assert((base + pairs_of(hv.take(j as int), feature_combo_weight_u32)).push(
                        hv[j as int],
                    ).push(feature_combo_weight_u32) =~= base + pairs_of(
                        hv.take(j as int + 1),
                        feature_combo_weight_u32,
                    ));
                }
            }
            proof {
                assert(hv.take(m as int) =~= hv);
                assert(descs.take(d as int + 1).drop_last() =~= descs.take(d as int));
                assert(descs.take(d as int + 1).last() == descs[d as int]);
                assert(self.output_buffer@ =~= seq![rb[1]] + descs_pairs(
                    scheme,
                    rb,
                    descs.take(d as int + 1),
                ));
            }
        }
        assert(descs.take(descs_n as int) =~= descs);
        if mi.add_constant_feature {
            self.output_buffer.push(CONSTANT_HASH);
            self.output_buffer.push(ONE_BITS);
        }
        assert(self.output_buffer@ =~= translate_spec(
            scheme,
            rb,
            descs,
            mi.add_constant_feature,
        ));
    }
}

/// Decide the combiner's precondition: whether a record buffer is well
/// formed for a configuration's descriptor list.  Collaborators hand the
/// core trusted input; this is the explicit check a boundary can make
/// before calling [`FeatureBuffer::translate_vowpal`] or
/// [`FeatureBuffer::translate_fwumnious`].
pub fn record_buffer_valid(record_buffer: &Vec<u32>, model_instance: &ModelInstance) -> (r: bool)
    ensures
        r == record_valid(record_buffer@, model_instance.feature_combo_descs@),
{
    let ghost rb: Seq<u32> = record_buffer@;
    let ghost descs: Seq<FeatureComboDesc> = model_instance.feature_combo_descs@;
    let n = record_buffer.len();
    if n < 2 {
        return false;
    }
    let descs_n = model_instance.feature_combo_descs.len();
    for d in 0..descs_n
        invariant
            record_buffer@ == rb,
            model_instance.feature_combo_descs@ == descs,
            n == rb.len(),
            n >= 2,
            descs_n == descs.len(),
            forall|dd: int|
                0 <= dd < d ==> indices_valid(rb, (#[trigger] descs[dd]).feature_indices@),
    {
        let desc = &model_instance.feature_combo_descs[d];
        let ghost indices: Seq<usize> = desc.feature_indices@;
        let idx_n = desc.feature_indices.len();
        for f in 0..idx_n
            invariant
                record_buffer@ == rb,
                model_instance.feature_combo_descs@ == descs,
                n == rb.len(),
                n >= 2,
                descs_n == descs.len(),
                d < descs.len(),
                desc.feature_indices@ == indices,
                descs[d as int].feature_indices@ == indices,
                idx_n == indices.len(),
                forall|dd: int|
                    0 <= dd < d ==> indices_valid(rb, (#[trigger] descs[dd]).feature_indices@),
                forall|k: int| 0 <= k < f ==> ns_valid(rb, #[trigger] indices[k]),
        {
            let idx = desc.feature_indices[f];
            if (idx as u128) * 2 + (HEADER_LEN as u128) + 1 >= n as u128 {
                assert(!ns_valid(rb, indices[f as int]));
                assert(!indices_valid(rb, descs[d as int].feature_indices@));
                return false;
            }
            let off = idx * 2 + HEADER_LEN;
            let range_start = record_buffer[off];
            let range_end = record_buffer[off + 1];
            if range_start > range_end || (range_end as usize) > n {
                assert(!ns_valid(rb, indices[f as int]));
                assert(!indices_valid(rb, descs[d as int].feature_indices@));
                return false;
            }
            assert(ns_valid(rb, indices[f as int]));
        }
        assert(indices_valid(rb, indices));
    }
    true
}

/// A crossing step over an empty working set leaves it empty.
proof fn lemma_cross_step_empty_prev(s: HashScheme, prev: Seq<u32>, raws: Seq<u32>)
    requires
        prev.len() == 0,
    ensures
        cross_step(s, prev, raws).len() == 0,
    decreases raws.len(),
{
    if raws.len() > 0 {
        lemma_cross_step_empty_prev(s, prev, raws.drop_last());
    }
}

/// A crossing step has one entry per (raw hash, partial hash) combination.
pub proof fn lemma_cross_step_len(s: HashScheme, prev: Seq<u32>, raws: Seq<u32>)
    ensures
        cross_step(s, prev, raws).len() == raws.len() * prev.len(),
    decreases raws.len(),
{
    if raws.len() > 0 {
        lemma_cross_step_len(s, prev, raws.drop_last());
        assert((raws.len() - 1) * prev.len() + prev.len() == raws.len() * prev.len())
            by (nonlinear_arith);
    }
}

/// The order of a crossing step: entry `i * prev.len() + j` folds raw hash
/// `i` into partial hash `j` — raw hashes vary slowest.
pub proof fn lemma_cross_step_index(s: HashScheme, prev: Seq<u32>, raws: Seq<u32>, i: int, j: int)
    requires
        0 <= i < raws.len(),
        0 <= j < prev.len(),
    ensures
        cross_step(s, prev, raws)[i * prev.len() + j] == combine(s, prev[j], raws[i]),
    decreases raws.len(),
{
    lemma_cross_step_len(s, prev, raws.drop_last());
    if i == raws.len() - 1 {
        assert(raws.last() == raws[i]);
        assert(i * prev.len() + j - i * prev.len() == j);
    } else {
        lemma_cross_step_index(s, prev, raws.drop_last(), i, j);
        assert(raws.drop_last()[i] == raws[i]);
        assert(i * prev.len() + j < (raws.len() - 1) * prev.len()) by (nonlinear_arith)
            requires
                0 <= i < raws.len() - 1,
                0 <= j < prev.len(),
        ;
    }
}

/// A descriptor with any absent (empty-range) namespace contributes
/// nothing: its cross product, and so its pair list, is empty
/// ("no feature is no feature").
pub proof fn lemma_empty_namespace_no_pairs(
    s: HashScheme,
    rb: Seq<u32>,
    indices: Seq<usize>,
    weight_bits: u32,
    k: int,
)
    requires
        indices_valid(rb, indices),
        0 <= k < indices.len(),
        ns_start(rb, indices[k]) == ns_end(rb, indices[k]),
    ensures
        combo_hashes(s, rb, indices).len() == 0,
        pairs_of(combo_hashes(s, rb, indices), weight_bits) == Seq::<u32>::empty(),
    decreases indices.len(),
{
    assert(ns_range(rb, indices[k]).len() == 0);
    if k == indices.len() - 1 {
        assert(indices.last() == indices[k]);
        lemma_cross_step_len(s, combo_hashes(s, rb, indices.drop_last()), ns_range(rb, indices[k]));
    } else {
        assert(indices.drop_last()[k] == indices[k]);
        assert(indices_valid(rb, indices.drop_last()));
        lemma_empty_namespace_no_pairs(s, rb, indices.drop_last(), weight_bits, k);
        lemma_cross_step_empty_prev(
            s,
            combo_hashes(s, rb, indices.drop_last()),
            ns_range(rb, indices.last()),
        );
    }
}

/// Folding a raw hash into the initial partial hash 0 leaves it unchanged,
/// under either combination rule.
proof fn lemma_combine_zero(s: HashScheme, h: u32)
    ensures
        combine(s, 0u32, h) == h,
{
    assert(h ^ 0u32 == h) by (bit_vector);
    assert(0u32.wrapping_mul(VOWPAL_FNV_PRIME) == 0);
}

/// Crossing the initial working set `[0]` with a raw-hash list emits the
/// raw hashes unchanged, in order, under either combination rule.
proof fn lemma_cross_step_identity(s: HashScheme, raws: Seq<u32>)
    ensures
        cross_step(s, seq![0u32], raws) == raws,
    decreases raws.len(),
{
    if raws.len() == 0 {
        assert(cross_step(s, seq![0u32], raws) =~= raws);
    } else {
        lemma_cross_step_identity(s, raws.drop_last());
        lemma_combine_zero(s, raws.last());
        assert(cross_row(s, seq![0u32], raws.last()) =~= seq![raws.last()]);
        assert(raws.drop_last() + seq![raws.last()] =~= raws);
    }
}

/// A single-namespace combo emits the namespace's raw hashes as they are,
/// under either combination rule: a size-1 cross product is the identity.
pub proof fn lemma_single_namespace_identity(s: HashScheme, rb: Seq<u32>, idx: usize)
    ensures
        combo_hashes(s, rb, seq![idx]) == ns_range(rb, idx),
{
    let indices: Seq<usize> = seq![idx];
    assert(indices.drop_last() =~= Seq::<usize>::empty());
    assert(combo_hashes(s, rb, indices.drop_last()) == seq![0u32]);
    lemma_cross_step_identity(s, ns_range(rb, idx));
}

/// A two-namespace combo is exactly one crossing step of the first
/// namespace's raw hashes with the second's: entry `i * |a| + j` combines
/// the first namespace's hash `j` into the second's hash `i`.
pub proof fn lemma_two_namespace_cross(s: HashScheme, rb: Seq<u32>, a: usize, b: usize)
    ensures
        combo_hashes(s, rb, seq![a, b]) == cross_step(s, ns_range(rb, a), ns_range(rb, b)),
{
    let indices: Seq<usize> = seq![a, b];
    assert(indices.drop_last() =~= seq![a]);
    assert(indices.last() == b);
    lemma_single_namespace_identity(s, rb, a);
}

/// On descriptors of single namespaces the two combination rules agree
/// pair for pair.
proof fn lemma_descs_pairs_single_agree(rb: Seq<u32>, descs: Seq<FeatureComboDesc>)
    requires
        forall|d: int| 0 <= d < descs.len() ==> (#[trigger] descs[d].feature_indices@).len() == 1,
    ensures
        descs_pairs(HashScheme::Vowpal, rb, descs) == descs_pairs(HashScheme::Fwumnious, rb, descs),
    decreases descs.len(),
{
    if descs.len() > 0 {
        lemma_descs_pairs_single_agree(rb, descs.drop_last());
        let indices = descs.last().feature_indices@;
        assert(indices =~= seq![indices[0]]);
        lemma_single_namespace_identity(HashScheme::Vowpal, rb, indices[0]);
        lemma_single_namespace_identity(HashScheme::Fwumnious, rb, indices[0]);
    }
}

/// When every descriptor keeps a single namespace, the Vowpal and the
/// wraparound-sum variants produce identical output buffers: the crossing
/// rules differ only on combos of two or more namespaces.
pub proof fn lemma_single_namespace_variants_agree(
    rb: Seq<u32>,
    descs: Seq<FeatureComboDesc>,
    add_constant: bool,
)
    requires
        forall|d: int| 0 <= d < descs.len() ==> (#[trigger] descs[d].feature_indices@).len() == 1,
    ensures
        translate_spec(HashScheme::Vowpal, rb, descs, add_constant) == translate_spec(
            HashScheme::Fwumnious,
            rb,
            descs,
            add_constant,
        ),
{
    lemma_descs_pairs_single_agree(rb, descs);
}

/// Some namespace the descriptor names is absent for this example: its
/// half-open range is empty.
pub open spec fn some_namespace_absent(rb: Seq<u32>, indices: Seq<usize>) -> bool {
    exists|k: int|
        0 <= k < indices.len() && ns_start(rb, #[trigger] indices[k]) == ns_end(rb, indices[k])
}

/// When every descriptor has some absent namespace, nothing but the label
/// and the configured constant pair is emitted: the output buffer is
/// exactly `[label, CONSTANT_HASH, bits(1.0)]`.
pub proof fn lemma_constant_only(s: HashScheme, rb: Seq<u32>, descs: Seq<FeatureComboDesc>)
    requires
        record_valid(rb, descs),
        forall|d: int|
            0 <= d < descs.len() ==> some_namespace_absent(rb, (#[trigger] descs[d]).feature_indices@),
    ensures
        translate_spec(s, rb, descs, true) == seq![rb[1], CONSTANT_HASH, ONE_BITS],
{
    lemma_descs_pairs_all_empty(s, rb, descs);
    assert(seq![rb[1]] + Seq::<u32>::empty() + seq![CONSTANT_HASH, ONE_BITS] =~= seq![
        rb[1],
        CONSTANT_HASH,
        ONE_BITS,
    ]);
}

/// With every descriptor missing a namespace, no pairs are emitted at all.
proof fn lemma_descs_pairs_all_empty(s: HashScheme, rb: Seq<u32>, descs: Seq<FeatureComboDesc>)
    requires
        record_valid(rb, descs),
        forall|d: int|
            0 <= d < descs.len() ==> some_namespace_absent(rb, (#[trigger] descs[d]).feature_indices@),
    ensures
        descs_pairs(s, rb, descs) == Seq::<u32>::empty(),
    decreases descs.len(),
{
    if descs.len() > 0 {
        assert(record_valid(rb, descs.drop_last()));
        lemma_descs_pairs_all_empty(s, rb, descs.drop_last());
        let indices = descs.last().feature_indices@;
        let d = descs.len() - 1;
        assert(descs[d] == descs.last());
        assert(some_namespace_absent(rb, indices));
        let k = choose|k: int|
            0 <= k < indices.len() && ns_start(rb, #[trigger] indices[k]) == ns_end(rb, indices[k]);
        assert(indices_valid(rb, indices));
        lemma_empty_namespace_no_pairs(s, rb, indices, descs.last().weight_bits, k);
        assert(Seq::<u32>::empty() + Seq::<u32>::empty() =~= Seq::<u32>::empty());
    }
}

/// The pairs of a prefix one hash longer carry that hash and the weight.
proof fn lemma_pairs_of_take_step(hashes: Seq<u32>, weight_bits: u32, j: int)
    requires
        0 <= j < hashes.len(),
    ensures
        pairs_of(hashes.take(j + 1), weight_bits) == pairs_of(hashes.take(j), weight_bits)
            + seq![hashes[j], weight_bits],
        pairs_of(hashes.take(j + 1), weight_bits) == pairs_of(hashes.take(j), weight_bits).push(
            hashes[j],
        ).push(weight_bits),
{
    assert(hashes.take(j + 1).drop_last() =~= hashes.take(j));
    assert(hashes.take(j + 1).last() == hashes[j]);
    assert(pairs_of(hashes.take(j), weight_bits) + seq![hashes[j], weight_bits] =~= pairs_of(
        hashes.take(j),
        weight_bits,
    ).push(hashes[j]).push(weight_bits));
}

} // verus!
