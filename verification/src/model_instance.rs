//! Model configuration: hyperparameters and the feature combo descriptors.
//!
//! A combo descriptor names an ordered list of namespace indices to cross
//! together, plus a scalar weight (carried as `f32` bits) that scales every
//! feature the combo generates.  Parsing a configuration out of a command
//! line or a model-description file is a collaborator's job; the core only
//! consumes the validated values held here.

use vstd::prelude::*;

verus! {

/// One feature combo: the namespace indices crossed together, and the
/// `f32` bit pattern of the scalar weight on every generated feature.
pub struct FeatureComboDesc {
    pub feature_indices: Vec<usize>,
    pub weight_bits: u32,
}

/// The configuration an instance of the core runs under.
pub struct ModelInstance {
    /// `f32` bits of the learning rate.
    pub learning_rate_bits: u32,
    /// `f32` bits of the adaptive learning-rate exponent.
    pub power_t_bits: u32,
    /// Width of the weight store: it holds `2^hash_bits` slots.
    pub hash_bits: u8,
    /// Append the synthetic constant (bias) feature to every output buffer.
    pub add_constant_feature: bool,
    pub feature_combo_descs: Vec<FeatureComboDesc>,
}

impl ModelInstance {
    /// The default configuration: learning rate 0.5, `power_t` 0.5,
    /// 18 hash bits, no constant feature, no combos.
    pub fn new_empty() -> (mi: ModelInstance)
        ensures
            mi.learning_rate_bits == crate::float_bits::HALF_BITS,
            mi.power_t_bits == crate::float_bits::HALF_BITS,
            mi.hash_bits == 18,
            !mi.add_constant_feature,
            mi.feature_combo_descs@.len() == 0,
    {
        ModelInstance {
            learning_rate_bits: crate::float_bits::HALF_BITS,
            power_t_bits: crate::float_bits::HALF_BITS,
            hash_bits: 18,
            add_constant_feature: false,
            feature_combo_descs: Vec::new(),
        }
    }
}

} // verus!
