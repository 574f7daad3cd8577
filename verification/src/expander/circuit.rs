//! The circuits that the Expander workload proves.

use crate::expander::{ExpanderCircuit, FieldConfig, GkrScheme};
use vstd::prelude::*;

verus! {

/// Keccak-f as a circuit over the binary field.
pub struct Gf2Keccak;

impl ExpanderCircuit for Gf2Keccak {
    open spec fn dir() -> Seq<char> {
        "./circuit/gf2_keccak"@
    }

    fn circuit_dir() -> (dir: &'static str) {
        "./circuit/gf2_keccak"
    }

    fn field_config() -> (config: FieldConfig)
        ensures
            config == FieldConfig::Gf2ExtSha2,
    {
        FieldConfig::Gf2ExtSha2
    }

    fn scheme() -> (scheme: GkrScheme)
        ensures
            scheme == GkrScheme::Vanilla,
    {
        GkrScheme::Vanilla
    }
}

/// Keccak-f as a circuit over the Mersenne-31 field.
pub struct M31Keccak;

impl ExpanderCircuit for M31Keccak {
    open spec fn dir() -> Seq<char> {
        "./circuit/m31_keccak"@
    }

    fn circuit_dir() -> (dir: &'static str) {
        "./circuit/m31_keccak"
    }

    fn field_config() -> (config: FieldConfig)
        ensures
            config == FieldConfig::M31ExtSha2,
    {
        FieldConfig::M31ExtSha2
    }

    fn scheme() -> (scheme: GkrScheme)
        ensures
            scheme == GkrScheme::Vanilla,
    {
        GkrScheme::Vanilla
    }
}

/// Poseidon as a circuit over the Mersenne-31 field.
pub struct M31Poseidon;

impl ExpanderCircuit for M31Poseidon {
    open spec fn dir() -> Seq<char> {
        "./circuit/m31_poseidon"@
    }

    fn circuit_dir() -> (dir: &'static str) {
        "./circuit/m31_poseidon"
    }

    fn field_config() -> (config: FieldConfig)
        ensures
            config == FieldConfig::M31ExtSha2,
    {
        FieldConfig::M31ExtSha2
    }

    fn scheme() -> (scheme: GkrScheme)
        ensures
            scheme == GkrScheme::Vanilla,
    {
        GkrScheme::Vanilla
    }
}

} // verus!
