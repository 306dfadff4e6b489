//! Numeric core of an online, hashing-trick linear learner.
//!
//! Two components, used in sequence per training example: the feature
//! combiner ([`feature_buffer`]) turns one example's record buffer into a
//! flat output buffer of `(hash, weight-bits)` pairs, and the online linear
//! learner ([`regressor`]) turns an output buffer into a logistic prediction
//! and, in training mode, an in-place adaptive weight update.
//!
//! All 32-bit float values are carried as their IEEE-754 bit patterns in
//! `u32` slots; [`float_bits`] holds the bit-level arithmetic primitives.

pub mod feature_buffer;
pub mod float_bits;
pub mod model_instance;
pub mod regressor;
