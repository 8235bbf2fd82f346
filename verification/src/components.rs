//! Declarative descriptions of a synth voice: oscillator, filters, effects, lifetime.

pub mod effect;
pub mod filter;
pub mod lifetime;
pub mod synth;
