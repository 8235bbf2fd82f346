//! Signal graphs, the units they are made of, and the parameters that steer them.

pub mod design;
pub mod graph;
pub mod graph_builder;
pub mod net;
pub mod param;
pub mod signal;
pub mod source;
pub mod unit;
