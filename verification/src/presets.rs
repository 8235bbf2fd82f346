//! Ready-made sound designs.

pub mod arcane_attack;
pub mod blunt_impact;
pub mod ear_ringing;
pub mod explosion;
pub mod heartbeat;
pub mod lightning;
pub mod sword_slash;
