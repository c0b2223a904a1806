//! Model of the Pallas base field `Fp`.
//!
//! An `Fp` value is opaque to the verifier; the spec function [`fp_val`]
//! names the canonical integer (in `0 .. p_modulus()`) that it stands for.
//! The arithmetic wrappers relate each field operation to plain modular
//! arithmetic on those integers, and [`poseidon_hash2`] names the digest
//! of the rate-2 Poseidon hash used as the Merkle compression function.

use vstd::prelude::*;

verus! {

use pasta_curves::Fp;

/// The modulus of the Pallas base field.
pub open spec fn p_modulus() -> nat {
    0x40000000000000000000000000000000224698fc094cf91b992d30ed00000001nat
}

#[verifier::external_type_specification]
#[verifier::external_body]
pub struct ExFp(Fp);

/// The canonical integer represented by a field element; always below
/// `p_modulus()` for a value produced by the wrappers in this module.
pub uninterp spec fn fp_val(x: Fp) -> nat;

/// Addition in the field, on canonical values.
pub open spec fn fadd(a: nat, b: nat) -> nat {
    (a + b) % p_modulus()
}

/// Subtraction in the field, on canonical values.
pub open spec fn fsub(a: nat, b: nat) -> nat {
    (((a as int) - (b as int)) % (p_modulus() as int)) as nat
}

/// Multiplication in the field, on canonical values.
pub open spec fn fmul(a: nat, b: nat) -> nat {
    (a * b) % p_modulus()
}

/// The S-box `x ^ 5`, on canonical values.
pub open spec fn fpow5(a: nat) -> nat {
    (a * a * a * a * a) % p_modulus()
}

/// The digest of the rate-2, width-3 Poseidon hash of two field elements,
/// as computed by `halo2_gadgets::poseidon::primitives::Hash` with the
/// `P128Pow5T3` parameters and the `ConstantLength<2>` domain, before
/// reduction; only its residue is ever used.
pub uninterp spec fn poseidon_hash2_raw(a: nat, b: nat) -> nat;

/// The digest of the rate-2, width-3 Poseidon hash of two field elements.
/// A digest is a field element, so it is canonical by construction.
pub open spec fn poseidon_hash2(a: nat, b: nat) -> nat {
    poseidon_hash2_raw(a, b) % p_modulus()
}

/// Relies on `From<u64> for pasta_curves::Fp`: embeds the integer into the
/// field; every `u64` is below the modulus, so no reduction occurs.
#[verifier::external_body]
pub(crate) fn fp_from_u64(x: u64) -> (r: Fp)
    ensures
        fp_val(r) == x as nat,
{
    Fp::from(x)
}

/// Relies on `Add for pasta_curves::Fp`: modular addition of the canonical
/// values, with a canonical result.
#[verifier::external_body]
pub(crate) fn fp_add(a: Fp, b: Fp) -> (r: Fp)
    ensures
        fp_val(r) == fadd(fp_val(a), fp_val(b)),
        fp_val(r) < p_modulus(),
{
    a + b
}

/// Relies on `Sub for pasta_curves::Fp`: modular subtraction of the
/// canonical values, with a canonical result.
#[verifier::external_body]
pub(crate) fn fp_sub(a: Fp, b: Fp) -> (r: Fp)
    ensures
        fp_val(r) == fsub(fp_val(a), fp_val(b)),
        fp_val(r) < p_modulus(),
{
    a - b
}

/// Relies on `Mul for pasta_curves::Fp`: modular multiplication of the
/// canonical values, with a canonical result.
#[verifier::external_body]
pub(crate) fn fp_mul(a: Fp, b: Fp) -> (r: Fp)
    ensures
        fp_val(r) == fmul(fp_val(a), fp_val(b)),
        fp_val(r) < p_modulus(),
{
    a * b
}

/// Relies on `halo2_gadgets::poseidon::primitives::Hash::hash` with the
/// `P128Pow5T3` parameters and the `ConstantLength<2>` domain: the digest
/// is a function of the two message words alone, here named
/// [`poseidon_hash2`]; the result is a field element, hence canonical.
#[verifier::external_body]
pub(crate) fn hash_two(a: Fp, b: Fp) -> (r: Fp)
    ensures
        fp_val(r) == poseidon_hash2_raw(fp_val(a), fp_val(b)) % p_modulus(),
        fp_val(r) == poseidon_hash2(fp_val(a), fp_val(b)),
        fp_val(r) < p_modulus(),
{
    halo2_gadgets::poseidon::primitives::Hash::<
        Fp,
        halo2_gadgets::poseidon::primitives::P128Pow5T3,
        halo2_gadgets::poseidon::primitives::ConstantLength<2>,
        3,
        2,
    >::init().hash([a, b])
}

} // verus!
