//! Poseidon parameterization: the `P128Pow5T3` parameter set over the
//! Pallas base field, bundled as an explicit [`PermutationSpec`] so that
//! the permutation and the reference functions share one configuration.

use vstd::prelude::*;

verus! {

use pasta_curves::Fp;
use crate::field::{fp_val, fadd, fmul, fpow5, p_modulus, poseidon_hash2, fp_mul};
use crate::poseidon::hash2_spec;

/// Canonical values of one row of field elements.
pub open spec fn row_vals(r: Seq<Fp>) -> Seq<nat> {
    r.map_values(|x: Fp| fp_val(x))
}

/// Canonical values of a table of rows.
pub open spec fn table_vals(t: Seq<Vec<Fp>>) -> Seq<Seq<nat>> {
    t.map_values(|r: Vec<Fp>| row_vals(r@))
}

/// Component `k` of the `P128Pow5T3` parameter tables for the Pallas
/// base field, as canonical values: `0` the 64 round-constant triples,
/// `1` the MDS matrix, `2` its inverse. The tables are hard-coded in the
/// outside crate, so every fetch returns these same values.
pub uninterp spec fn p128_table(k: nat) -> Seq<Seq<nat>>;

/// Entry `(i, j)` of the product of two 3x3 matrices over the field,
/// accumulated left to right.
pub open spec fn mat3_product_entry(x: Seq<Seq<nat>>, y: Seq<Seq<nat>>, i: int, j: int) -> nat {
    fadd(fadd(fmul(x[i][0], y[0][j]), fmul(x[i][1], y[1][j])), fmul(x[i][2], y[2][j]))
}

/// Whether `y` is a two-sided 3x3 matrix inverse of `x` over the field:
/// both products are the identity matrix.
pub open spec fn mat3_inverse_of(x: Seq<Seq<nat>>, y: Seq<Seq<nat>>) -> bool {
    forall|i: int, j: int|
        0 <= i < 3 && 0 <= j < 3 ==> {
            &&& #[trigger] mat3_product_entry(x, y, i, j) == (if i == j { 1nat } else { 0nat })
            &&& mat3_product_entry(y, x, i, j) == (if i == j { 1nat } else { 0nat })
        }
}

/// The configuration bundle fixed per field: round counts, one constant
/// triple per round, and the MDS matrix with its inverse.
pub struct PermutationSpec {
    pub full_rounds: usize,
    pub partial_rounds: usize,
    pub round_constants: Vec<Vec<Fp>>,
    pub mds: Vec<Vec<Fp>>,
    pub mds_inv: Vec<Vec<Fp>>,
}

impl PermutationSpec {
    /// Shape invariant: an even number of full rounds, one width-3
    /// constant row per round, and 3x3 mixing matrices.
    pub open spec fn wf(&self) -> bool {
        &&& self.full_rounds % 2 == 0
        &&& self.round_constants@.len() == self.full_rounds + self.partial_rounds
        &&& forall|i: int|
            0 <= i < self.round_constants@.len() ==> (#[trigger] self.round_constants@[i])@.len()
                == 3
        &&& self.mds@.len() == 3
        &&& forall|i: int| 0 <= i < self.mds@.len() ==> (#[trigger] self.mds@[i])@.len() == 3
        &&& self.mds_inv@.len() == 3
        &&& forall|i: int|
            0 <= i < self.mds_inv@.len() ==> (#[trigger] self.mds_inv@[i])@.len() == 3
    }

    /// The round-constant table, as canonical values.
    pub open spec fn rc_vals(&self) -> Seq<Seq<nat>> {
        table_vals(self.round_constants@)
    }

    /// The MDS matrix, as canonical values.
    pub open spec fn mds_vals(&self) -> Seq<Seq<nat>> {
        table_vals(self.mds@)
    }

    /// The MDS inverse, as canonical values.
    pub open spec fn mds_inv_vals(&self) -> Seq<Seq<nat>> {
        table_vals(self.mds_inv@)
    }

    /// Whether the bundle's tables reproduce the canonical rate-2 digest:
    /// the round-schedule recurrence over these tables equals the named
    /// Poseidon hash on every pair of inputs.
    pub open spec fn conforms(&self) -> bool {
        forall|a: nat, b: nat|
            #[trigger] hash2_spec(
                a,
                b,
                self.rc_vals(),
                self.mds_vals(),
                self.full_rounds as nat,
                self.partial_rounds as nat,
            ) == poseidon_hash2(a, b)
    }
}

/// Relies on `halo2_gadgets::poseidon::primitives::P128Pow5T3::constants`
/// (the `Spec<Fp, 3, 2>` impl): 64 hard-coded round-constant triples for
/// the Pallas base field together with the 3x3 MDS matrix and its
/// inverse, here named [`p128_table`]. The trait documents the third
/// component as the matrix inverse of the second. These are the same
/// tables that `primitives::Hash` consumes, and its digest is the
/// round-schedule recurrence over them: state `[a, b, 2 * 2^64]`, the
/// `8 / 56 / 8`-split schedule with the `x^5` S-box and this MDS matrix,
/// then the first state slot; so that recurrence equals the digest named
/// [`poseidon_hash2`].
#[verifier::external_body]
fn fetch_p128pow5t3_constants() -> (r: (Vec<Vec<Fp>>, Vec<Vec<Fp>>, Vec<Vec<Fp>>))
    ensures
        r.0@.len() == 64,
        forall|i: int| 0 <= i < r.0@.len() ==> (#[trigger] r.0@[i])@.len() == 3,
        r.1@.len() == 3,
        forall|i: int| 0 <= i < r.1@.len() ==> (#[trigger] r.1@[i])@.len() == 3,
        r.2@.len() == 3,
        forall|i: int| 0 <= i < r.2@.len() ==> (#[trigger] r.2@[i])@.len() == 3,
        table_vals(r.0@) == p128_table(0),
        table_vals(r.1@) == p128_table(1),
        table_vals(r.2@) == p128_table(2),
        mat3_inverse_of(table_vals(r.1@), table_vals(r.2@)),
        forall|a: nat, b: nat|
            #[trigger] hash2_spec(a, b, table_vals(r.0@), table_vals(r.1@), 8, 56)
                == poseidon_hash2(a, b),
{
    let (rc, mds, mds_inv) = <halo2_gadgets::poseidon::primitives::P128Pow5T3 as
        halo2_gadgets::poseidon::primitives::Spec<Fp, 3, 2>>::constants();
    (
        rc.into_iter().map(|row| row.to_vec()).collect(),
        mds.into_iter().map(|row| row.to_vec()).collect(),
        mds_inv.into_iter().map(|row| row.to_vec()).collect(),
    )
}

/// Poseidon-128 with the `x^5` S-box and a width of 3 field elements:
/// 8 full and 56 partial rounds, the standard parameter set for 128-bit
/// security with margin on the Pallas base field.
pub struct P128Pow5T3;

impl P128Pow5T3 {
    /// The number of full rounds.
    pub fn full_rounds() -> (r: usize)
        ensures
            r == 8,
    {
        8
    }

    /// The number of partial rounds.
    pub fn partial_rounds() -> (r: usize)
        ensures
            r == 56,
    {
        56
    }

    /// The S-box `x ^ 5`, computed with field multiplications.
    pub fn sbox(x: Fp) -> (r: Fp)
        ensures
            fp_val(r) == fpow5(fp_val(x)),
            fp_val(r) < p_modulus(),
    {
        let x2 = fp_mul(x, x);
        let x4 = fp_mul(x2, x2);
        let r = fp_mul(x4, x);
        proof {
            let v = fp_val(x) as int;
            let p = p_modulus() as int;
            vstd::arithmetic::div_mod::lemma_mul_mod_noop(v * v, v * v, p);
            vstd::arithmetic::div_mod::lemma_mul_mod_noop_general((v * v) * (v * v), v, p);
            assert(((v * v) * (v * v)) * v == v * v * v * v * v) by (nonlinear_arith);
        }
        r
    }

    /// The full parameter bundle for the Pallas base field. The tables
    /// are pinned to [`p128_table`], so every bundle holds one and the
    /// same constant set; the bundle conforms to the canonical digest,
    /// and its third table is the matrix inverse of its second.
    pub fn constants() -> (r: PermutationSpec)
        ensures
            r.wf(),
            r.full_rounds == 8,
            r.partial_rounds == 56,
            r.rc_vals() == p128_table(0),
            r.mds_vals() == p128_table(1),
            r.mds_inv_vals() == p128_table(2),
            mat3_inverse_of(r.mds_vals(), r.mds_inv_vals()),
            r.conforms(),
    {
        let (round_constants, mds, mds_inv) = fetch_p128pow5t3_constants();
        PermutationSpec { full_rounds: 8, partial_rounds: 56, round_constants, mds, mds_inv }
    }
}

} // verus!
