//! The analysis of one function body.

pub mod body;
pub mod data_flow;
pub mod data_flow_checker;
pub mod dot;
pub mod graph;
