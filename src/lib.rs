//! A binary-encoded genetic algorithm that advances one generation at a time,
//! together with the coordination rules that keep at most one advance and at
//! most one background auto-advance loop alive.

pub mod advance;
pub mod chromosome;
pub mod coordinator;
pub mod operators;
pub mod population;
pub mod random;
