pub mod grid;
pub mod laws;
pub mod rules;
pub mod stepper;
mod rng;
