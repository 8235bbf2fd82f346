//! What the host's events do to a sound: parameter pushes and ageing.

pub mod lifecycle;
pub mod sync;
