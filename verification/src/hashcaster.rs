//! The Hashcaster workload for Keccak-f: its parameters, the shape of its
//! proofs and its errors.

pub mod hash;
pub mod util;
