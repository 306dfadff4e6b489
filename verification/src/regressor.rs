//! The online linear learner: a logistic-link model over hashed features,
//! trained with an adaptive (accumulated squared gradient) learning rate.
//!
//! The learner owns two dense arrays of `2^hash_bits` float bit patterns:
//! the learned weight per slot and the accumulated sum of squared gradients
//! per slot.  Every hash is folded into a slot by `hash & hash_mask`.
//!
//! One `learn` call on an output buffer proceeds in three steps, and the
//! two that touch the model state are verified here:
//!
//! 1. [`Regressor::dot_product`]: sum the learned weights of the buffer's
//!    hash slots (the per-pair weight bits are ignored by the dot product).
//! 2. The prediction is the logistic sigmoid of that sum, and the
//!    per-feature adaptive factor is `grad_sq^(-power_t)`; both need the
//!    platform's transcendental float functions, which the driver supplies
//!    (they cannot be computed here).
//! 3. [`Regressor::accumulate_gradients`] then [`Regressor::apply_updates`]:
//!    the in-place training update, bit-for-bit the reference trajectory.
//!
//! The reference update interleaves, per feature: accumulate the squared
//! gradient, then step the weight.  The two arrays are disjoint and every
//! operand of a weight step is fixed once the accumulator value it reads is
//! recorded, so running all accumulator increments first and all weight
//! steps second (with the recorded values in between) performs the same
//! float operations on the same operands in the same order per slot.

use crate::float_bits::{
    fadd, fmul, fneg, fsub, spec_fadd, spec_fmul, spec_fneg, spec_fsub, spec_u32_to_float,
    u32_to_float_bits, ZERO_BITS,
};
use crate::model_instance::ModelInstance;
use vstd::prelude::*;

verus! {

/// The weight-store slot a hash is folded into.
pub open spec fn slot_of(hash: u32, mask: u32) -> int {
    (hash & mask) as int
}

/// An output buffer: a label slot, then whole `(hash, weight-bits)` pairs.
pub open spec fn buffer_valid(buf: Seq<u32>) -> bool {
    buf.len() >= 1 && buf.len() % 2 == 1
}

/// How many `(hash, weight-bits)` pairs the buffer holds.
pub open spec fn pair_count(buf: Seq<u32>) -> int {
    (buf.len() - 1) / 2
}

/// The dot product over the first `k` pairs: a left fold of float addition
/// over the learned weights of the pairs' slots, starting from 0.0.
pub open spec fn wsum_spec(w: Seq<u32>, mask: u32, buf: Seq<u32>, k: int) -> u32
    decreases k,
{
    if k <= 0 {
        ZERO_BITS
    } else {
        spec_fadd(wsum_spec(w, mask, buf, k - 1), w[slot_of(buf[2 * (k - 1) + 1], mask)])
    }
}

/// The shared gradient of one example: `-(prediction - y)`, where `y` is
/// the label slot converted to float.
pub open spec fn general_gradient_spec(label: u32, prediction: u32) -> u32 {
    spec_fneg(spec_fsub(prediction, spec_u32_to_float(label)))
}

/// The per-feature gradient: the shared gradient scaled by the pair's
/// weight bits.
pub open spec fn gradient_spec(buf: Seq<u32>, gg: u32, k: int) -> u32 {
    spec_fmul(gg, buf[2 * k + 2])
}

/// The squared-gradient accumulator array after the first `k` pairs have
/// added their squared gradients, in pair order.
pub open spec fn gsq_after(g: Seq<u32>, mask: u32, buf: Seq<u32>, gg: u32, k: int) -> Seq<u32>
    decreases k,
{
    if k <= 0 {
        g
    } else {
        let g1 = gsq_after(g, mask, buf, gg, k - 1);
        let loc = slot_of(buf[2 * (k - 1) + 1], mask);
        let grad = gradient_spec(buf, gg, k - 1);
        g1.update(loc, spec_fadd(g1[loc], spec_fmul(grad, grad)))
    }
}

/// The accumulator value each pair reads right after its own increment:
/// the adaptive factor's base, in pair order.
pub open spec fn gsq_seen(g: Seq<u32>, mask: u32, buf: Seq<u32>, gg: u32, k: int) -> Seq<u32> {
    Seq::new(k as nat, |i: int| gsq_after(g, mask, buf, gg, i + 1)[slot_of(buf[2 * i + 1], mask)])
}

/// The weight array after the first `k` pairs have stepped, in pair order.
/// `adapt[i]` is the adaptive factor of pair `i` (its accumulator value
/// raised to `-power_t`, supplied by the driver); the step of pair `i` adds
/// `weight_bits * (gradient * learning_rate) * adapt[i]` to its slot.
pub open spec fn weights_after(
    w: Seq<u32>,
    mask: u32,
    buf: Seq<u32>,
    gg: u32,
    lr: u32,
    adapt: Seq<u32>,
    k: int,
) -> Seq<u32>
    decreases k,
{
    if k <= 0 {
        w
    } else {
        let w1 = weights_after(w, mask, buf, gg, lr, adapt, k - 1);
        let loc = slot_of(buf[2 * (k - 1) + 1], mask);
        let fw = buf[2 * (k - 1) + 2];
        let grad = gradient_spec(buf, gg, k - 1);
        let update_factor = spec_fmul(spec_fmul(fw, spec_fmul(grad, lr)), adapt[k - 1]);
        w1.update(loc, spec_fadd(w1[loc], update_factor))
    }
}

/// A slot index never exceeds the mask.
proof fn lemma_slot_in_range(hash: u32, mask: u32)
    ensures
        0 <= slot_of(hash, mask) <= mask,
{
    assert((hash & mask) <= mask) by (bit_vector);
}

/// The online linear learner: configuration, slot mask, and the two model
/// arrays, all float values as bits.
pub struct Regressor<'a> {
    pub model_instance: &'a ModelInstance,
    pub hash_mask: u32,
    pub weights: Vec<u32>,
    pub gradient_sqr: Vec<u32>,
}

impl<'a> Regressor<'a> {
    /// Both model arrays span exactly the masked slot range.
    pub open spec fn wf(&self) -> bool {
        &&& self.weights@.len() == self.hash_mask as int + 1
        &&& self.gradient_sqr@.len() == self.hash_mask as int + 1
    }

    /// A fresh learner: mask `2^hash_bits - 1`, all weights and
    /// accumulators zero.
    pub fn new(model_instance: &'a ModelInstance) -> (rg: Regressor<'a>)
        requires
            model_instance.hash_bits < 32,
        ensures
            rg.model_instance == model_instance,
            rg.wf(),
            rg.hash_mask == (1u32 << (model_instance.hash_bits as u32)) - 1,
            forall|i: int| 0 <= i < rg.weights@.len() ==> rg.weights@[i] == ZERO_BITS,
            forall|i: int| 0 <= i < rg.gradient_sqr@.len() ==> rg.gradient_sqr@[i] == ZERO_BITS,
    {
        let bits = model_instance.hash_bits as u32;
        assert(bits < 32 ==> (1u32 << bits) >= 1) by (bit_vector);
        assert(bits < 32 ==> (1u32 << bits) <= 0x8000_0000) by (bit_vector);
        let hash_mask = (1u32 << bits) - 1;
        let n = (hash_mask as usize) + 1;
        Regressor {
            model_instance,
            hash_mask,
            weights: zero_vec(n),
            gradient_sqr: zero_vec(n),
        }
    }

    /// Sum the learned weights of the buffer's hash slots (stride 2 from
    /// slot 1; the per-pair weight bits take no part in the sum).  With an
    /// all-zero weight array the sum is exactly 0.0, whatever the hashes.
    pub fn dot_product(&self, feature_buffer: &Vec<u32>) -> (wsum: u32)
        requires
            self.wf(),
            buffer_valid(feature_buffer@),
        ensures
            wsum == wsum_spec(
                self.weights@,
                self.hash_mask,
                feature_buffer@,
                pair_count(feature_buffer@),
            ),
            (forall|i: int| 0 <= i < self.weights@.len() ==> self.weights@[i] == ZERO_BITS)
                ==> wsum == ZERO_BITS,
    {
        let ghost buf: Seq<u32> = feature_buffer@;
        let n = feature_buffer.len();
        let m = (n - 1) / 2;
        let mut wsum: u32 = ZERO_BITS;
        assert(m == pair_count(buf));
        for k in 0..m
            invariant
                feature_buffer@ == buf,
                buffer_valid(buf),
                n == buf.len(),
                m == pair_count(buf),
                self.wf(),
                wsum == wsum_spec(self.weights@, self.hash_mask, buf, k as int),
                (forall|i: int| 0 <= i < self.weights@.len() ==> self.weights@[i] == ZERO_BITS)
                    ==> wsum == ZERO_BITS,
        {
            assert(2 * (k as int) + 1 < n as int);
            let hash = feature_buffer[2 * k + 1];
            proof {
                lemma_slot_in_range(hash, self.hash_mask);
            }
            let loc = (hash & self.hash_mask) as usize;
            wsum = fadd(wsum, self.weights[loc]);
        }
        wsum
    }

    /// Add each pair's squared gradient to its slot's accumulator, in pair
    /// order, and return the accumulator value each pair saw right after
    /// its own increment (the base of its adaptive factor).  The weights
    /// are untouched.
    pub fn accumulate_gradients(&mut self, feature_buffer: &Vec<u32>, prediction: u32) -> (seen:
        Vec<u32>)
        requires
            old(self).wf(),
            buffer_valid(feature_buffer@),
        ensures
            final(self).model_instance == old(self).model_instance,
            final(self).hash_mask == old(self).hash_mask,
            final(self).weights == old(self).weights,
            final(self).gradient_sqr@ == gsq_after(
                old(self).gradient_sqr@,
                old(self).hash_mask,
                feature_buffer@,
                general_gradient_spec(feature_buffer@[0], prediction),
                pair_count(feature_buffer@),
            ),
            seen@ == gsq_seen(
                old(self).gradient_sqr@,
                old(self).hash_mask,
                feature_buffer@,
                general_gradient_spec(feature_buffer@[0], prediction),
                pair_count(feature_buffer@),
            ),
            final(self).wf(),
    {
        let ghost buf: Seq<u32> = feature_buffer@;
        let ghost g0: Seq<u32> = self.gradient_sqr@;
        let ghost mask: u32 = self.hash_mask;
        let y = u32_to_float_bits(feature_buffer[0]);
        let general_gradient = fneg(fsub(prediction, y));
        let ghost gg: u32 = general_gradient;
        assert(gg == general_gradient_spec(buf[0], prediction));
        let n = feature_buffer.len();
        let m = (n - 1) / 2;
        let mut seen: Vec<u32> = Vec::with_capacity(m);
        for k in 0..m
            invariant
                feature_buffer@ == buf,
                buffer_valid(buf),
                n == buf.len(),
                m == pair_count(buf),
                self.model_instance == old(self).model_instance,
                self.hash_mask == mask,
                self.weights == old(self).weights,
                old(self).gradient_sqr@ == g0,
                g0.len() == mask as int + 1,
                self.weights@.len() == mask as int + 1,
                gg == general_gradient_spec(buf[0], prediction),
                general_gradient == gg,
                self.gradient_sqr@ == gsq_after(g0, mask, buf, gg, k as int),
                self.gradient_sqr@.len() == mask as int + 1,
                seen@ =~= gsq_seen(g0, mask, buf, gg, k as int),
        {
            assert(2 * (k as int) + 2 < n as int);
            let hash = feature_buffer[2 * k + 1];
            proof {
                lemma_slot_in_range(hash, mask);
            }
            let loc = (hash & self.hash_mask) as usize;
            let feature_weight = feature_buffer[2 * k + 2];
            let gradient = fmul(general_gradient, feature_weight);
            let incremented = fadd(self.gradient_sqr[loc], fmul(gradient, gradient));
            self.gradient_sqr[loc] = incremented;
            seen.push(incremented);
            proof {
                let ki: int = k as int;
                let g1 = gsq_after(g0, mask, buf, gg, ki);
                let loc_s = slot_of(buf[2 * ki + 1], mask);
                assert(loc as int == loc_s);
                assert(gradient == gradient_spec(buf, gg, ki));
                assert(incremented == spec_fadd(g1[loc_s], spec_fmul(gradient_spec(buf, gg, ki), gradient_spec(buf, gg, ki))));
                assert(gsq_after(g0, mask, buf, gg, ki + 1) == g1.update(loc_s, spec_fadd(g1[loc_s], spec_fmul(gradient_spec(buf, gg, ki), gradient_spec(buf, gg, ki)))));
                assert(self.gradient_sqr@ == gsq_after(g0, mask, buf, gg, ki + 1));
                assert(seen@ =~= gsq_seen(g0, mask, buf, gg, ki + 1));
            }
        }
        seen
    }

    /// Step each pair's weight, in pair order: add
    /// `weight_bits * (gradient * learning_rate) * adapt[k]` to its slot,
    /// where `adapt[k]` is the adaptive factor computed from the value
    /// [`Regressor::accumulate_gradients`] returned for that pair.  The
    /// accumulators are untouched.
    pub fn apply_updates(&mut self, feature_buffer: &Vec<u32>, prediction: u32, adapt: &Vec<u32>)
        requires
            old(self).wf(),
            buffer_valid(feature_buffer@),
            adapt@.len() == pair_count(feature_buffer@),
        ensures
            final(self).model_instance == old(self).model_instance,
            final(self).hash_mask == old(self).hash_mask,
            final(self).gradient_sqr == old(self).gradient_sqr,
            final(self).weights@ == weights_after(
                old(self).weights@,
                old(self).hash_mask,
                feature_buffer@,
                general_gradient_spec(feature_buffer@[0], prediction),
                old(self).model_instance.learning_rate_bits,
                adapt@,
                pair_count(feature_buffer@),
            ),
            final(self).wf(),
    {
        let ghost buf: Seq<u32> = feature_buffer@;
        let ghost w0: Seq<u32> = self.weights@;
        let ghost mask: u32 = self.hash_mask;
        let learning_rate = self.model_instance.learning_rate_bits;
        let y = u32_to_float_bits(feature_buffer[0]);
        let general_gradient = fneg(fsub(prediction, y));
        let ghost gg: u32 = general_gradient;
        assert(gg == general_gradient_spec(buf[0], prediction));
        let n = feature_buffer.len();
        let m = (n - 1) / 2;
        for k in 0..m
            invariant
                feature_buffer@ == buf,
                buffer_valid(buf),
                n == buf.len(),
                m == pair_count(buf),
                adapt@.len() == m,
                self.model_instance == old(self).model_instance,
                self.model_instance.learning_rate_bits == learning_rate,
                self.hash_mask == mask,
                self.gradient_sqr == old(self).gradient_sqr,
                old(self).weights@ == w0,
                w0.len() == mask as int + 1,
                self.gradient_sqr@.len() == mask as int + 1,
                gg == general_gradient_spec(buf[0], prediction),
                general_gradient == gg,
                self.weights@ == weights_after(w0, mask, buf, gg, learning_rate, adapt@, k as int),
                self.weights@.len() == mask as int + 1,
        {
            assert(2 * (k as int) + 2 < n as int);
            let hash = feature_buffer[2 * k + 1];
            proof {
                lemma_slot_in_range(hash, mask);
            }
            let loc = (hash & self.hash_mask) as usize;
            let feature_weight = feature_buffer[2 * k + 2];
            let gradient = fmul(general_gradient, feature_weight);
            let update_factor = fmul(fmul(feature_weight, fmul(gradient, learning_rate)), adapt[k]);
            let stepped = fadd(self.weights[loc], update_factor);
            self.weights[loc] = stepped;
            proof {
                let ki: int = k as int;
                let w1 = weights_after(w0, mask, buf, gg, learning_rate, adapt@, ki);
                let loc_s = slot_of(buf[2 * ki + 1], mask);
                assert(loc as int == loc_s);
                assert(gradient == gradient_spec(buf, gg, ki));
                assert(update_factor == spec_fmul(spec_fmul(buf[2 * ki + 2], spec_fmul(gradient_spec(buf, gg, ki), learning_rate)), adapt@[ki]));
                assert(weights_after(w0, mask, buf, gg, learning_rate, adapt@, ki + 1) == w1.update(loc_s, spec_fadd(w1[loc_s], spec_fmul(spec_fmul(buf[2 * ki + 2], spec_fmul(gradient_spec(buf, gg, ki), learning_rate)), adapt@[ki]))));
                assert(self.weights@ == weights_after(w0, mask, buf, gg, learning_rate, adapt@, ki + 1));
            }
        }
    }
}

/// The verified learning steps are pure functions of the prior state, the
/// buffer and the supplied factors: two learners in equal states, fed the
/// same buffer, the same prediction and the same adaptive factors, compute
/// the same dot product, the same accumulator array, the same recorded
/// accumulator values and the same stepped weights.  Bit-reproducibility
/// of a training run's verified steps follows run step by run step; the
/// whole prediction sequence is additionally reproducible whenever the
/// driver's sigmoid and power functions are, which is outside this crate.
pub proof fn lemma_learn_steps_deterministic(
    w1: Seq<u32>,
    g1: Seq<u32>,
    w2: Seq<u32>,
    g2: Seq<u32>,
    mask: u32,
    buf: Seq<u32>,
    label: u32,
    prediction: u32,
    lr: u32,
    adapt: Seq<u32>,
    k: int,
)
    requires
        w1 == w2,
        g1 == g2,
    ensures
        wsum_spec(w1, mask, buf, k) == wsum_spec(w2, mask, buf, k),
        gsq_after(g1, mask, buf, general_gradient_spec(label, prediction), k) == gsq_after(
            g2,
            mask,
            buf,
            general_gradient_spec(label, prediction),
            k,
        ),
        gsq_seen(g1, mask, buf, general_gradient_spec(label, prediction), k) == gsq_seen(
            g2,
            mask,
            buf,
            general_gradient_spec(label, prediction),
            k,
        ),
        weights_after(w1, mask, buf, general_gradient_spec(label, prediction), lr, adapt, k)
            == weights_after(
            w2,
            mask,
            buf,
            general_gradient_spec(label, prediction),
            lr,
            adapt,
            k,
        ),
{
}

/// The sums returned by `times` read-only calls in a row on an unchanged
/// learner: each one is the same dot product of the same state.
pub open spec fn repeated_dot(w: Seq<u32>, mask: u32, buf: Seq<u32>, times: nat) -> Seq<u32>
    decreases times,
{
    if times == 0 {
        Seq::empty()
    } else {
        repeated_dot(w, mask, buf, (times - 1) as nat).push(
            wsum_spec(w, mask, buf, pair_count(buf)),
        )
    }
}

/// Read-only calls are idempotent: a read-only `learn` is the dot product
/// alone, it takes the learner by shared reference and so cannot touch the
/// weights or the accumulators, and each of any number of repeated calls
/// returns the very same sum.
pub proof fn lemma_readonly_idempotent(w: Seq<u32>, mask: u32, buf: Seq<u32>, times: nat)
    ensures
        repeated_dot(w, mask, buf, times).len() == times,
        forall|i: int|
            0 <= i < times ==> repeated_dot(w, mask, buf, times)[i] == wsum_spec(
                w,
                mask,
                buf,
                pair_count(buf),
            ),
    decreases times,
{
    if times > 0 {
        lemma_readonly_idempotent(w, mask, buf, (times - 1) as nat);
    }
}

/// A vector of `n` zero slots.
fn zero_vec(n: usize) -> (v: Vec<u32>)
    ensures
        v@.len() == n,
        forall|i: int| 0 <= i < n ==> v@[i] == ZERO_BITS,
{
    let mut v: Vec<u32> = Vec::with_capacity(n);
    for k in 0..n
        invariant
            v@.len() == k,
            forall|i: int| 0 <= i < k ==> v@[i] == ZERO_BITS,
    {
        v.push(ZERO_BITS);
    }
    v
}

} // verus!
