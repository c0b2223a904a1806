//! Tests of the reference root, the Merkle circuit model, and the laws
//! stated over them, against the real Poseidon primitive.

use merkle_poseidon::circuits::MerkleTreeCircuit;
use merkle_poseidon::merkle::compute_merkle_root;
use merkle_poseidon::witness::{CircuitError, WitnessValue};
use pasta_curves::Fp;

fn known_circuit(leaf: u64, elements: &[Fp], indices: &[u64]) -> MerkleTreeCircuit {
    MerkleTreeCircuit {
        leaf: WitnessValue::Known(Fp::from(leaf)),
        elements: elements.iter().map(|x| WitnessValue::Known(*x)).collect(),
        indices: indices.iter().map(|x| WitnessValue::Known(Fp::from(*x))).collect(),
    }
}

/// A deterministic spread of field elements, derived by iterated hashing.
fn spread(seed: u64, n: usize) -> Vec<Fp> {
    let mut out = Vec::new();
    let mut cur = Fp::from(seed);
    for i in 0..n {
        cur = halo2_gadgets::poseidon::primitives::Hash::<
            Fp,
            halo2_gadgets::poseidon::primitives::P128Pow5T3,
            halo2_gadgets::poseidon::primitives::ConstantLength<2>,
            3,
            2,
        >::init()
        .hash([cur, Fp::from(i as u64)]);
        out.push(cur);
    }
    out
}

#[test]
fn merkle_test() {
    let leaf = 99u64;
    let elements: Vec<Fp> = [1u64, 5, 6, 9, 9].iter().map(|x| Fp::from(*x)).collect();
    let indices = vec![0u64, 0, 0, 0, 0];

    let digest = compute_merkle_root(&Fp::from(leaf), &elements, &indices);

    let circuit = known_circuit(leaf, &elements, &indices);
    let instance = circuit.instance().expect("synthesis should succeed");
    assert_eq!(instance.len(), 2);
    assert_eq!(instance[0], Fp::from(leaf));
    assert_eq!(instance[1], digest);

    // The same witness never satisfies an instance with a different root.
    let wrong_root = Fp::from(432058235u64);
    assert_ne!(instance[1], wrong_root);
}

#[test]
fn test_big() {
    let depth = 24usize;
    let leaf = 7777u64;
    let elements = spread(4242, depth);
    let indices = vec![0u64; depth];

    let digest = compute_merkle_root(&Fp::from(leaf), &elements, &indices);

    let circuit = known_circuit(leaf, &elements, &indices);
    let root = circuit.synthesize_root().expect("synthesis should succeed");
    assert_eq!(root, digest);
    assert_ne!(root, Fp::from(432058235u64));
}

#[test]
fn agreement_mixed_directions() {
    // The circuit's blend-selected chain agrees with the reference root
    // and with the primitive applied by hand, on a path that branches
    // both ways.
    let leaf = Fp::from(31u64);
    let elements = spread(9, 6);
    let indices = vec![0u64, 1, 1, 0, 1, 0];

    let digest = compute_merkle_root(&leaf, &elements, &indices);

    let mut expected = leaf;
    for (sibling, dir) in elements.iter().zip(indices.iter()) {
        let message = if *dir == 0 { [expected, *sibling] } else { [*sibling, expected] };
        expected = halo2_gadgets::poseidon::primitives::Hash::<
            Fp,
            halo2_gadgets::poseidon::primitives::P128Pow5T3,
            halo2_gadgets::poseidon::primitives::ConstantLength<2>,
            3,
            2,
        >::init()
        .hash(message);
    }
    assert_eq!(digest, expected);

    let circuit = known_circuit(31, &elements, &indices);
    let root = circuit.synthesize_root().expect("synthesis should succeed");
    assert_eq!(root, digest);
}

#[test]
fn determinism_repeated_calls() {
    let leaf = Fp::from(12u64);
    let elements = spread(3, 8);
    let indices = vec![1u64, 0, 1, 0, 0, 1, 1, 0];
    let first = compute_merkle_root(&leaf, &elements, &indices);
    let second = compute_merkle_root(&leaf, &elements, &indices);
    assert_eq!(first, second);
}

#[test]
fn depth_zero_identity() {
    let leaf = Fp::from(555u64);
    let root = compute_merkle_root(&leaf, &Vec::new(), &Vec::new());
    assert_eq!(root, leaf);

    let circuit = known_circuit(555, &[], &[]);
    let root = circuit.synthesize_root().expect("synthesis should succeed");
    assert_eq!(root, leaf);
}

#[test]
fn avalanche_flips() {
    let leaf = 99u64;
    let elements: Vec<Fp> = [1u64, 5, 6, 9, 9].iter().map(|x| Fp::from(*x)).collect();
    let indices = vec![0u64, 0, 0, 0, 0];
    let base = compute_merkle_root(&Fp::from(leaf), &elements, &indices);

    // Flipping any single sibling changes the root.
    for i in 0..elements.len() {
        let mut tampered = elements.clone();
        tampered[i] += Fp::from(1u64);
        let root = compute_merkle_root(&Fp::from(leaf), &tampered, &indices);
        assert_ne!(root, base);
    }
    // Flipping any single direction bit changes the root.
    for i in 0..indices.len() {
        let mut tampered = indices.clone();
        tampered[i] = 1;
        let root = compute_merkle_root(&Fp::from(leaf), &elements, &tampered);
        assert_ne!(root, base);
    }
    // Flipping the leaf changes the root.
    let root = compute_merkle_root(&Fp::from(leaf + 1), &elements, &indices);
    assert_ne!(root, base);
}

#[test]
fn unknown_witness_rejected() {
    let elements = spread(1, 3);
    let indices = vec![0u64, 1, 0];

    let mut circuit = known_circuit(8, &elements, &indices);
    circuit.leaf = WitnessValue::Unknown;
    assert!(matches!(circuit.synthesize_root(), Err(CircuitError::UnknownWitness)));

    let mut circuit = known_circuit(8, &elements, &indices);
    circuit.elements[1] = WitnessValue::Unknown;
    assert!(matches!(circuit.synthesize_root(), Err(CircuitError::UnknownWitness)));

    let mut circuit = known_circuit(8, &elements, &indices);
    circuit.indices[2] = WitnessValue::Unknown;
    assert!(matches!(circuit.instance(), Err(CircuitError::UnknownWitness)));
}

#[test]
fn shape_mismatch_rejected() {
    let elements = spread(2, 4);
    let indices = vec![0u64, 1, 0];
    let circuit = known_circuit(8, &elements, &indices);
    assert!(matches!(circuit.synthesize_root(), Err(CircuitError::ShapeMismatch)));
    assert!(matches!(circuit.instance(), Err(CircuitError::ShapeMismatch)));
}

#[test]
fn without_witnesses_keeps_shape_drops_data() {
    let elements = spread(5, 2);
    let circuit = known_circuit(3, &elements, &[1, 0]);
    let blank = circuit.without_witnesses();
    assert!(matches!(blank.leaf, WitnessValue::Unknown));
    assert_eq!(blank.elements.len(), 2);
    assert_eq!(blank.indices.len(), 2);
    assert!(blank.elements.iter().all(|w| matches!(w, WitnessValue::Unknown)));
    assert!(blank.indices.iter().all(|w| matches!(w, WitnessValue::Unknown)));
    // The blank copy reads as absent everywhere: synthesis refuses it.
    assert!(matches!(blank.synthesize_root(), Err(CircuitError::UnknownWitness)));
}
