//! Tests of the Poseidon parameters, the verified permutation, and the
//! Poseidon circuit model, against the canonical primitive.

use ff::Field;
use merkle_poseidon::circuits::PoseidonCircuit;
use merkle_poseidon::params::P128Pow5T3;
use merkle_poseidon::poseidon::poseidon_hash;
use merkle_poseidon::witness::{CircuitError, WitnessValue};
use pasta_curves::Fp;

fn canonical_hash(message: [Fp; 2]) -> Fp {
    halo2_gadgets::poseidon::primitives::Hash::<
        Fp,
        halo2_gadgets::poseidon::primitives::P128Pow5T3,
        halo2_gadgets::poseidon::primitives::ConstantLength<2>,
        3,
        2,
    >::init()
    .hash(message)
}

#[test]
fn poseidon_test() {
    let message = [Fp::from(123456789u64), Fp::from(987654321u64)];
    let output = canonical_hash(message);

    let params = P128Pow5T3::constants();
    let circuit = PoseidonCircuit {
        message: vec![WitnessValue::Known(message[0]), WitnessValue::Known(message[1])],
        output: WitnessValue::Known(output),
    };
    let digest = circuit.synthesize_digest(&params).expect("synthesis should succeed");
    assert_eq!(digest, output);

    let instance = circuit.instance(&params).expect("synthesis should succeed");
    assert_eq!(instance, vec![output]);
}

#[test]
fn poseidon_conformance() {
    // The round-by-round permutation of this crate must reproduce the
    // canonical primitive's digest for the same parameter tables.
    let params = P128Pow5T3::constants();
    let cases: Vec<[u64; 2]> = vec![
        [0, 0],
        [0, 1],
        [1, 0],
        [99, 10],
        [432058235, 99],
        [u64::MAX, 1],
        [314159265358979323, 271828182845904523],
    ];
    for case in cases {
        let a = Fp::from(case[0]);
        let b = Fp::from(case[1]);
        assert_eq!(poseidon_hash(a, b, &params), canonical_hash([a, b]));
    }
}

#[test]
fn parameter_shape() {
    assert_eq!(P128Pow5T3::full_rounds(), 8);
    assert_eq!(P128Pow5T3::partial_rounds(), 56);
    let params = P128Pow5T3::constants();
    assert_eq!(params.round_constants.len(), 64);
    assert!(params.round_constants.iter().all(|row| row.len() == 3));
    assert_eq!(params.mds.len(), 3);
    assert!(params.mds.iter().all(|row| row.len() == 3));
    assert_eq!(params.mds_inv.len(), 3);
    assert!(params.mds_inv.iter().all(|row| row.len() == 3));
}

#[test]
fn mds_inverse_identity() {
    // The third fetched table is the matrix inverse of the second, in
    // both multiplication orders.
    let params = P128Pow5T3::constants();
    for (x, y) in [(&params.mds, &params.mds_inv), (&params.mds_inv, &params.mds)] {
        for i in 0..3 {
            for j in 0..3 {
                let mut entry = Fp::ZERO;
                for k in 0..3 {
                    entry += x[i][k] * y[k][j];
                }
                let expected = if i == j { Fp::ONE } else { Fp::ZERO };
                assert_eq!(entry, expected);
            }
        }
    }
}

#[test]
fn constants_fixed_across_calls() {
    let first = P128Pow5T3::constants();
    let second = P128Pow5T3::constants();
    assert_eq!(first.round_constants, second.round_constants);
    assert_eq!(first.mds, second.mds);
    assert_eq!(first.mds_inv, second.mds_inv);
}

#[test]
fn sbox_matches_fifth_power() {
    for x in [0u64, 1, 2, 5, 99, 432058235, u64::MAX] {
        let v = Fp::from(x);
        assert_eq!(P128Pow5T3::sbox(v), v.pow_vartime([5u64]));
    }
}

#[test]
fn select_pair_orders_by_direction() {
    let digest = Fp::from(21u64);
    let sibling = Fp::from(34u64);
    let (left, right) = merkle_poseidon::merkle::select_pair(digest, sibling, Fp::from(0u64));
    assert_eq!((left, right), (digest, sibling));
    let (left, right) = merkle_poseidon::merkle::select_pair(digest, sibling, Fp::from(1u64));
    assert_eq!((left, right), (sibling, digest));
}

#[test]
fn witness_reads() {
    let v = Fp::from(17u64);
    assert_eq!(WitnessValue::known(v).read(), Ok(v));
    assert!(matches!(WitnessValue::unknown().read(), Err(CircuitError::UnknownWitness)));
}

#[test]
fn poseidon_circuit_shape_and_unknowns() {
    let params = P128Pow5T3::constants();
    let short = PoseidonCircuit {
        message: vec![WitnessValue::Known(Fp::from(1u64))],
        output: WitnessValue::Unknown,
    };
    assert!(matches!(short.synthesize_digest(&params), Err(CircuitError::ShapeMismatch)));

    let half_known = PoseidonCircuit {
        message: vec![WitnessValue::Known(Fp::from(1u64)), WitnessValue::Unknown],
        output: WitnessValue::Unknown,
    };
    assert!(matches!(half_known.synthesize_digest(&params), Err(CircuitError::UnknownWitness)));

    let empty = half_known.without_witnesses();
    assert_eq!(empty.message.len(), 2);
    assert!(empty.message.iter().all(|w| matches!(w, WitnessValue::Unknown)));
}
