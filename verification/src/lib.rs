//! Merkle-membership and Poseidon hashing over the Pallas base field,
//! modelled at the witness level: a reference root computation, the
//! Poseidon permutation as plain field arithmetic, the branch-free pair
//! selection used inside the arithmetic circuit, and the per-level
//! constraint relation with its completeness and soundness lemmas.

pub mod field;
pub mod merkle;
pub mod params;
pub mod poseidon;
pub mod witness;
pub mod circuits;
