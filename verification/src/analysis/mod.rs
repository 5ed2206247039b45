//! The analysis of a crate: its build plan, its functions, the catalog of
//! taint sources and the problems found.

pub mod build_plan;
pub mod callbacks;
pub mod mir;
pub mod taint_problem;
pub mod taint_source;
