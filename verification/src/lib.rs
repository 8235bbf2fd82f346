//! Procedural audio, planned in fixed-point arithmetic.
//!
//! A sound is described by a signal graph: units such as oscillators,
//! filters and envelopes, and the connections between their ports.  This
//! crate builds such graphs, for a generic synth voice and for a set of
//! ready-made sound effects, and proves of every graph it builds that it is
//! validly wired, that it can be run front to back, and what signal each of
//! its output channels carries, as an expression over units.  It also holds
//! the logic around a graph: clamped live parameters, the timing of
//! envelopes and rhythms, the interleaving of rendered blocks, and the
//! ageing of one-shot sounds.  The samples themselves are computed
//! elsewhere, by units of the `fundsp` crate, onto which `dsp::net` wires a
//! graph.
//!
//! All scalars are fixed-point numbers: see `fixed`.

pub mod components;
pub mod dsp;
pub mod fixed;
pub mod presets;
pub mod systems;
