//! A population of competing neurons that jointly learn a weighted
//! reconstruction of an input image, in exact fixed-point arithmetic.
//!
//! Each neuron's activation is its weighted sum of the pixel measures divided
//! by the sum of its weights (the weight-sum normalization policy). Every
//! pixel's accumulated prediction is cleared when the pixel is loaded, and
//! loading pixel `(0, 0)` clears the shared activation total.
//!
//! Weights, measures and activations are kept at scale `ONE`; accumulated
//! predictions at scale `ONE * ONE`, so that reconstructions lose nothing to
//! rounding. A learning step clamps a weight at 0 from below; the only upper
//! limit is the largest `u64`, which a weight that would grow past it keeps.

pub mod fixed;
pub mod laws;
pub mod neurology;

pub use fixed::{
    intensity_from_byte, MAX_INPUTS, MAX_LEARNING_CONSTANT, MAX_NEURONS, ONE,
};
pub use neurology::{CompAENetwork, CompAENeuron, NeuronicInput, WeightHolder};
