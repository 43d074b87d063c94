use zkrag::circuit::{DocumentQueryCircuit, PrivacyCircuit};
use zkrag::merkle::{hash_field_elements, merkle_path, merkle_root, node_hash, verify_merkle_proof};
use zkrag::ZkError;

#[test]
fn test_circuit_synthesis() {
    // The placeholder commitment 42 is not the Merkle root of the leaves, so
    // the genuine constraint set rejects this instance.
    let circuit = DocumentQueryCircuit {
        document_hashes: vec![1u64, 2u64],
        query_embedding: vec![3u64],
        search_results: vec![0u64],
        document_commitment: 42u64,
        model_hash: 100u64,
        timestamp: 1234567890u64,
        window_start: 0,
        window_end: u64::MAX,
    };
    assert!(circuit.generate_constraints() == Err(ZkError::ConstraintUnsatisfiedError));

    // With the commitment actually recomputed from the leaves, the same
    // instance satisfies every constraint.
    let commitment = merkle_root(&vec![1u64, 2u64]);
    let satisfied = DocumentQueryCircuit {
        document_hashes: vec![1u64, 2u64],
        query_embedding: vec![3u64],
        search_results: vec![0u64],
        document_commitment: commitment,
        model_hash: 100u64,
        timestamp: 1234567890u64,
        window_start: 0,
        window_end: u64::MAX,
    };
    assert!(satisfied.generate_constraints().is_ok());
    assert_eq!(satisfied.num_public_inputs(), 3);
    // One tree-node hash, one index bound, no distinctness pairs, one
    // embedding coordinate, two window bounds.
    assert_eq!(satisfied.num_constraints(), 5);
    assert_eq!(satisfied.name(), "DocumentQueryCircuit");
}

#[test]
fn test_circuit_basic() {
    assert_eq!(2 + 2, 4);
}

#[test]
fn test_hash_field_elements() {
    let elements = vec![1u64, 2u64, 3u64];
    let hash = hash_field_elements(&elements);
    assert_eq!(hash, 6u64);
}

#[test]
fn test_hash_field_elements_wraps_at_modulus() {
    let p = zkrag::field::FIELD_MODULUS;
    assert_eq!(hash_field_elements(&vec![p - 1, 2u64]), 1u64);
}

#[test]
fn test_circuit_rejects_out_of_range_index() {
    let commitment = merkle_root(&vec![7u64, 8u64]);
    let circuit = DocumentQueryCircuit {
        document_hashes: vec![7u64, 8u64],
        query_embedding: vec![],
        search_results: vec![2u64],
        document_commitment: commitment,
        model_hash: 1u64,
        timestamp: 5,
        window_start: 0,
        window_end: 10,
    };
    assert_eq!(circuit.generate_constraints(), Err(ZkError::ConstraintUnsatisfiedError));
}

#[test]
fn test_circuit_rejects_duplicate_indices() {
    let commitment = merkle_root(&vec![7u64, 8u64]);
    let circuit = DocumentQueryCircuit {
        document_hashes: vec![7u64, 8u64],
        query_embedding: vec![],
        search_results: vec![1u64, 1u64],
        document_commitment: commitment,
        model_hash: 1u64,
        timestamp: 5,
        window_start: 0,
        window_end: 10,
    };
    assert_eq!(circuit.generate_constraints(), Err(ZkError::ConstraintUnsatisfiedError));
}

#[test]
fn test_circuit_rejects_timestamp_outside_window() {
    let commitment = merkle_root(&vec![7u64, 8u64]);
    let circuit = DocumentQueryCircuit {
        document_hashes: vec![7u64, 8u64],
        query_embedding: vec![],
        search_results: vec![0u64],
        document_commitment: commitment,
        model_hash: 1u64,
        timestamp: 11,
        window_start: 0,
        window_end: 10,
    };
    assert_eq!(circuit.generate_constraints(), Err(ZkError::ConstraintUnsatisfiedError));
}

#[test]
fn test_merkle_root_structure() {
    // Four leaves: the root is the hash of the two subtree hashes.
    let (a, b, c, d) = (10u64, 20u64, 30u64, 40u64);
    let expected = node_hash(node_hash(a, b), node_hash(c, d));
    assert_eq!(merkle_root(&vec![a, b, c, d]), expected);

    // Three leaves: the last slot is padded with the zero leaf.
    let padded = node_hash(node_hash(a, b), node_hash(c, 0));
    assert_eq!(merkle_root(&vec![a, b, c]), padded);

    // A single leaf is its own root.
    assert_eq!(merkle_root(&vec![a]), a);
}

#[test]
fn test_merkle_path_extraction() {
    // Every extracted path verifies against the commitment, on a full tree
    // and on one that needed padding.
    let full: Vec<u64> = vec![3, 1, 4, 1, 5, 9, 2, 6];
    let root = merkle_root(&full);
    for i in 0..full.len() {
        let path = merkle_path(&full, i);
        assert_eq!(path.len(), 3);
        assert!(verify_merkle_proof(full[i], &path, root, i));
        assert!(!verify_merkle_proof(full[i] + 1, &path, root, i));
    }
    let ragged: Vec<u64> = vec![11, 22, 33, 44, 55];
    let ragged_root = merkle_root(&ragged);
    for i in 0..ragged.len() {
        let path = merkle_path(&ragged, i);
        assert!(verify_merkle_proof(ragged[i], &path, ragged_root, i));
    }
}

#[test]
fn test_merkle_inclusion_proof() {
    let (a, b, c, d) = (10u64, 20u64, 30u64, 40u64);
    let root = merkle_root(&vec![a, b, c, d]);
    // Leaf 0 is authenticated by its sibling and the right subtree hash.
    let siblings = vec![b, node_hash(c, d)];
    assert!(verify_merkle_proof(a, &siblings, root, 0));
    // Leaf 2 sits on the right: direction bits differ.
    let siblings_c = vec![d, node_hash(a, b)];
    assert!(verify_merkle_proof(c, &siblings_c, root, 2));
    // A wrong root, wrong leaf, or wrong position is rejected.
    assert!(!verify_merkle_proof(a, &siblings, root ^ 1, 0));
    assert!(!verify_merkle_proof(b, &siblings, root, 0));
    assert!(!verify_merkle_proof(a, &siblings, root, 1));
}
