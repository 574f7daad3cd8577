//! The parameters of the Binius workloads.

pub mod circuit;
pub mod hash;
