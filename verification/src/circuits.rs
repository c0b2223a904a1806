//! The two circuit assemblies, modelled at the witness level: the
//! values that synthesis assigns, and the public-input column layout
//! (Merkle circuit: leaf at row 0, root at row 1; Poseidon circuit:
//! digest at row 0).

use vstd::prelude::*;

verus! {

use pasta_curves::Fp;
use crate::field::{fp_val, hash_two, poseidon_hash2};
use crate::merkle::{blend_root_spec, select_pair};
use crate::params::PermutationSpec;
use crate::poseidon::{poseidon_hash, hash2_spec};
use crate::witness::{WitnessValue, CircuitError, wval, wvals, all_known, unknown_column};

/// The Merkle-membership circuit: a private leaf, private siblings and
/// private direction bits, each at index 0 adjacent to the leaf.
#[derive(Clone)]
pub struct MerkleTreeCircuit {
    pub leaf: WitnessValue,
    pub elements: Vec<WitnessValue>,
    pub indices: Vec<WitnessValue>,
}

impl MerkleTreeCircuit {
    /// Whether every private cell of the circuit holds a known witness.
    pub open spec fn fully_known(&self) -> bool {
        &&& self.leaf is Known
        &&& all_known(self.elements@)
        &&& all_known(self.indices@)
    }

    /// The root that synthesis assigns, as a function of the witness.
    pub open spec fn root_spec(&self) -> nat {
        blend_root_spec(wval(self.leaf), wvals(self.elements@), wvals(self.indices@))
    }
}

impl Default for MerkleTreeCircuit {
    /// The depth-zero circuit with no witnesses.
    fn default() -> (r: Self)
        ensures
            r.leaf == WitnessValue::Unknown,
            r.elements@.len() == 0,
            r.indices@.len() == 0,
    {
        MerkleTreeCircuit {
            leaf: WitnessValue::Unknown,
            elements: Vec::new(),
            indices: Vec::new(),
        }
    }
}

impl MerkleTreeCircuit {
    /// The configuration-phase copy of the circuit: the depth (shape) is
    /// preserved, every witness is absent, so the configuration and
    /// key-generation passes see the circuit's shape but none of its data.
    pub fn without_witnesses(&self) -> (r: Self)
        ensures
            r.leaf == WitnessValue::Unknown,
            r.elements@.len() == self.elements@.len(),
            r.indices@.len() == self.indices@.len(),
            forall|i: int| 0 <= i < r.elements@.len() ==> r.elements@[i] == WitnessValue::Unknown,
            forall|i: int| 0 <= i < r.indices@.len() ==> r.indices@[i] == WitnessValue::Unknown,
    {
        MerkleTreeCircuit {
            leaf: WitnessValue::Unknown,
            elements: unknown_column(self.elements.len()),
            indices: unknown_column(self.indices.len()),
        }
    }

    /// The value-level synthesis of the Merkle path region: every level
    /// selects its ordered pair through the blend gates and hashes it,
    /// exactly as the chip assigns the cells.
    pub fn synthesize_root(&self) -> (r: Result<Fp, CircuitError>)
        ensures
            self.elements@.len() != self.indices@.len() ==> r == Result::<Fp, CircuitError>::Err(
                CircuitError::ShapeMismatch,
            ),
            self.elements@.len() == self.indices@.len() && !self.fully_known() ==> r
                == Result::<Fp, CircuitError>::Err(CircuitError::UnknownWitness),
            self.elements@.len() == self.indices@.len() && self.fully_known() ==> match r {
                Ok(root) => fp_val(root) == self.root_spec(),
                Err(_) => false,
            },
    {
        if self.elements.len() != self.indices.len() {
            return Err(CircuitError::ShapeMismatch);
        }
        let mut digest = self.leaf.read()?;
        let k = self.elements.len();
        let mut i: usize = 0;
        proof {
            assert(wvals(self.elements@).skip(0) =~= wvals(self.elements@));
            assert(wvals(self.indices@).skip(0) =~= wvals(self.indices@));
        }
        while i < k
            invariant
                i <= k,
                k == self.elements@.len(),
                self.elements@.len() == self.indices@.len(),
                self.leaf is Known,
                forall|j: int| 0 <= j < i ==> (#[trigger] self.elements@[j]) is Known,
                forall|j: int| 0 <= j < i ==> (#[trigger] self.indices@[j]) is Known,
                blend_root_spec(
                    fp_val(digest),
                    wvals(self.elements@).skip(i as int),
                    wvals(self.indices@).skip(i as int),
                ) == self.root_spec(),
            decreases k - i,
        {
            let s = self.elements[i].read()?;
            let d = self.indices[i].read()?;
            let (left, right) = select_pair(digest, s, d);
            let next = hash_two(left, right);
            proof {
                assert(wvals(self.elements@).skip(i as int).drop_first() =~= wvals(
                    self.elements@,
                ).skip(i as int + 1));
                assert(wvals(self.indices@).skip(i as int).drop_first() =~= wvals(
                    self.indices@,
                ).skip(i as int + 1));
                assert(wvals(self.elements@).skip(i as int)[0] == wval(
                    self.elements@[i as int],
                ));
                assert(wvals(self.indices@).skip(i as int)[0] == wval(self.indices@[i as int]));
            }
            digest = next;
            i = i + 1;
        }
        Ok(digest)
    }

    /// The public-input column of the Merkle circuit: the leaf is copied
    /// to row 0 and the synthesized root to row 1.
    pub fn instance(&self) -> (r: Result<Vec<Fp>, CircuitError>)
        ensures
            self.elements@.len() != self.indices@.len() ==> r == Result::<
                Vec<Fp>,
                CircuitError,
            >::Err(CircuitError::ShapeMismatch),
            self.elements@.len() == self.indices@.len() && !self.fully_known() ==> r == Result::<
                Vec<Fp>,
                CircuitError,
            >::Err(CircuitError::UnknownWitness),
            self.elements@.len() == self.indices@.len() && self.fully_known() ==> match r {
                Ok(inst) => {
                    &&& inst@.len() == 2
                    &&& fp_val(inst@[0]) == wval(self.leaf)
                    &&& fp_val(inst@[1]) == self.root_spec()
                },
                Err(_) => false,
            },
    {
        let root = self.synthesize_root()?;
        let leaf = self.leaf.read()?;
        let mut inst: Vec<Fp> = Vec::new();
        inst.push(leaf);
        inst.push(root);
        Ok(inst)
    }
}

/// The Poseidon-only circuit: a private 2-element message whose digest
/// is exposed as the single public value.
#[derive(Clone)]
pub struct PoseidonCircuit {
    pub message: Vec<WitnessValue>,
    pub output: WitnessValue,
}

impl PoseidonCircuit {
    /// The digest that synthesis assigns, as a function of the witness
    /// and the permutation parameters.
    pub open spec fn digest_spec(&self, params: PermutationSpec) -> nat {
        hash2_spec(
            wval(self.message@[0]),
            wval(self.message@[1]),
            params.rc_vals(),
            params.mds_vals(),
            params.full_rounds as nat,
            params.partial_rounds as nat,
        )
    }

    /// The configuration-phase copy of the circuit: the same shape with
    /// every witness absent.
    pub fn without_witnesses(&self) -> (r: Self)
        ensures
            r.message@.len() == self.message@.len(),
            forall|i: int|
                0 <= i < r.message@.len() ==> r.message@[i] == WitnessValue::Unknown,
            r.output == WitnessValue::Unknown,
    {
        PoseidonCircuit {
            message: unknown_column(self.message.len()),
            output: WitnessValue::Unknown,
        }
    }

    /// The value-level synthesis of the hash region: the two message
    /// cells are loaded privately and run through the permutation.
    pub fn synthesize_digest(&self, params: &PermutationSpec) -> (r: Result<Fp, CircuitError>)
        requires
            params.wf(),
        ensures
            self.message@.len() != 2 ==> r == Result::<Fp, CircuitError>::Err(
                CircuitError::ShapeMismatch,
            ),
            self.message@.len() == 2 && !all_known(self.message@) ==> r == Result::<
                Fp,
                CircuitError,
            >::Err(CircuitError::UnknownWitness),
            self.message@.len() == 2 && all_known(self.message@) ==> match r {
                Ok(d) => fp_val(d) == self.digest_spec(*params),
                Err(_) => false,
            },
            self.message@.len() == 2 && all_known(self.message@) && params.conforms()
                ==> match r {
                Ok(d) => fp_val(d) == poseidon_hash2(
                    wval(self.message@[0]),
                    wval(self.message@[1]),
                ),
                Err(_) => false,
            },
    {
        if self.message.len() != 2 {
            return Err(CircuitError::ShapeMismatch);
        }
        let m0 = self.message[0].read()?;
        let m1 = self.message[1].read()?;
        Ok(poseidon_hash(m0, m1, params))
    }

    /// The public-input column of the Poseidon circuit: the digest is
    /// copied to row 0.
    pub fn instance(&self, params: &PermutationSpec) -> (r: Result<Vec<Fp>, CircuitError>)
        requires
            params.wf(),
        ensures
            self.message@.len() != 2 ==> r == Result::<Vec<Fp>, CircuitError>::Err(
                CircuitError::ShapeMismatch,
            ),
            self.message@.len() == 2 && !all_known(self.message@) ==> r == Result::<
                Vec<Fp>,
                CircuitError,
            >::Err(CircuitError::UnknownWitness),
            self.message@.len() == 2 && all_known(self.message@) ==> match r {
                Ok(inst) => inst@.len() == 1 && fp_val(inst@[0]) == self.digest_spec(*params),
                Err(_) => false,
            },
            self.message@.len() == 2 && all_known(self.message@) && params.conforms()
                ==> match r {
                Ok(inst) => inst@.len() == 1 && fp_val(inst@[0]) == poseidon_hash2(
                    wval(self.message@[0]),
                    wval(self.message@[1]),
                ),
                Err(_) => false,
            },
    {
        let digest = self.synthesize_digest(params)?;
        let mut inst: Vec<Fp> = Vec::new();
        inst.push(digest);
        Ok(inst)
    }
}

} // verus!
