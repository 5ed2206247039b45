//! Static taint tracking over function bodies: a dependency graph of data flow,
//! a catalog of taint sources, the propagation of taint through the graph and
//! the problems reported for taint that is used before it was wrapped.

pub mod analysis;
pub mod args;
pub mod cargo;
pub mod output;
pub mod rustc;
pub mod span;
pub mod text;
pub mod untrusted_value;
