//! Per-individual biology of prey (herbivores) and predators (carnivores) in a
//! discrete-time ecosystem simulation.
//!
//! All quantities are fixed-point integers:
//! - weights are in thousandths of a weight unit (`WEIGHT_SCALE` per unit);
//! - fitness values and probabilities are in millionths (`FITNESS_SCALE` is 1);
//! - rates and factors are in thousandths (`RATE_SCALE` is 1).
//!
//! The logistic curves of the fitness function are transcendental: the caller
//! supplies them as a closure from `(age, weight)` to the two factors (see
//! `rules::curve_ok`), and the library combines them.

pub mod rules;
pub mod herbivore;
pub mod carnivore;

pub use rules::{FITNESS_SCALE, RATE_SCALE, WEIGHT_SCALE};
pub use herbivore::Herbivore;
pub use carnivore::Carnivore;
