use zkrag::circuit::CircuitShape;
use zkrag::codec::PROOF_LEN;
use zkrag::encoder::encode_hash_string;
use zkrag::keys::{
    generate_setup, parse_proving_key, parse_verifying_key, serialize_proving_key,
    serialize_verifying_key,
};
use zkrag::merkle::merkle_root;
use zkrag::prover::QueryProver;
use zkrag::service::{
    generate_proof, register_document, register_model, verdict_message, verify_proof,
    verify_proof_detailed, verify_query, MockKernel,
};
use zkrag::verifying::{PublicInputs, QueryVerifier};
use zkrag::witness::QueryWitness;
use zkrag::ZkError;

/// Hex text whose field encoding is exactly `root`, for use as a
/// commitment string: eight bytes chosen so the absorbing fold lands on
/// `root`.
fn commitment_hex_for(root: u64) -> String {
    let p = zkrag::field::FIELD_MODULUS as u128;
    let tag_term = ((zkrag::encoder::HASH_TAG as u128) << 64) % p;
    let b = ((root as u128) + p - tag_term) % p;
    format!("{:016x}", b as u64)
}

const NOW: u64 = 1_700_000_000;

fn encoded_leaves(hashes: &[&str]) -> Vec<u64> {
    hashes.iter().map(|h| encode_hash_string(h).unwrap()).collect()
}

fn setup_pair(shape: CircuitShape) -> (QueryProver, QueryVerifier) {
    let (pk, vk) = generate_setup(shape).unwrap();
    let pk_bytes = serialize_proving_key(&pk);
    let vk_bytes = serialize_verifying_key(&vk);
    let mut prover = QueryProver::new().unwrap();
    prover.setup(Some(&pk_bytes)).unwrap();
    let mut verifier = QueryVerifier::new().unwrap();
    verifier.load_key(&vk_bytes).unwrap();
    (prover, verifier)
}

#[test]
fn test_prover_creation() {
    let prover = QueryProver::new();
    assert!(prover.is_ok());
}

#[test]
fn test_verifier_creation() {
    let verifier = QueryVerifier::new();
    assert!(verifier.is_ok());
}

#[test]
fn test_placeholder_verification() {
    let verifier = QueryVerifier::new().unwrap();
    let public_inputs = PublicInputs {
        document_commitment: "abc123".to_string(),
        model_hash: "model456".to_string(),
        timestamp: 1234567890,
    };
    // Without a loaded verifying key, verification is refused rather than
    // waved through.
    let result = verifier.verify(&vec![0u8; 128], public_inputs, NOW);
    assert!(result.is_err());

    // With a key loaded, a blob of the wrong shape is structurally
    // malformed, not valid.
    let (_, verifier) = setup_pair(CircuitShape { num_leaves: 2, num_results: 1, num_embedding: 1 });
    let public_inputs = PublicInputs {
        document_commitment: "abc123".to_string(),
        model_hash: "abc456".to_string(),
        timestamp: 1234567890,
    };
    let result = verifier.verify(&vec![0u8; 128], public_inputs, NOW);
    assert_eq!(result.unwrap_err(), ZkError::MalformedProofError);
}

#[test]
fn test_prove_verify_round_trip() {
    let hashes = vec!["aa11".to_string(), "bb22".to_string(), "cc33".to_string()];
    let leaves = encoded_leaves(&["aa11", "bb22", "cc33"]);
    let root = merkle_root(&leaves);
    let commitment = commitment_hex_for(root);
    let model = "abcdef12".to_string();
    let shape = CircuitShape { num_leaves: 4, num_results: 2, num_embedding: 2 };
    let (prover, verifier) = setup_pair(shape);

    let proof_hex = generate_proof(
        &prover,
        hashes,
        "which clauses mention indemnity".to_string(),
        vec![5000, -700],
        vec![0, 2],
        commitment.clone(),
        model.clone(),
        NOW,
        NOW,
    )
    .unwrap();
    assert_eq!(proof_hex.len(), 2 * PROOF_LEN);

    let verdict = verify_proof(&verifier, &proof_hex, commitment.clone(), model.clone(), NOW, NOW);
    assert_eq!(verdict.unwrap(), true);

    // A timestamp the proof was not issued for verifies negatively, never
    // as an error.
    let stale = verify_proof(&verifier, &proof_hex, commitment.clone(), model.clone(),
        NOW + 999_999, NOW);
    assert_eq!(stale.unwrap(), false);

    // So does a different model hash.
    let other_model = verify_proof(&verifier, &proof_hex, commitment.clone(),
        "ffffffff".to_string(), NOW, NOW);
    assert_eq!(other_model.unwrap(), false);

    let detailed = verify_proof_detailed(&verifier, &proof_hex, commitment.clone(), model, NOW,
        NOW)
        .unwrap();
    assert!(detailed.is_valid);
    assert_eq!(detailed.public_inputs.document_commitment, commitment);
    assert_eq!(detailed.verified_at, NOW);
}

#[test]
fn test_proof_bytes_invariant_under_private_data() {
    let hashes = vec!["aa11".to_string(), "bb22".to_string(), "cc33".to_string()];
    let leaves = encoded_leaves(&["aa11", "bb22", "cc33"]);
    let commitment = commitment_hex_for(merkle_root(&leaves));
    let model = "abcdef12".to_string();
    let shape = CircuitShape { num_leaves: 4, num_results: 2, num_embedding: 2 };
    let (prover, _) = setup_pair(shape);

    let p1 = generate_proof(&prover, hashes.clone(), "first query".to_string(), vec![1, 2],
        vec![0, 2], commitment.clone(), model.clone(), NOW, NOW)
        .unwrap();
    let p2 = generate_proof(&prover, hashes, "an entirely different query".to_string(),
        vec![-90_000, 44], vec![0, 2], commitment, model, NOW, NOW)
        .unwrap();
    assert_eq!(p1, p2);
    assert_eq!(p1.len(), 2 * PROOF_LEN);
}

#[test]
fn test_bit_flip_in_proof_is_rejected() {
    let hashes = vec!["aa11".to_string(), "bb22".to_string()];
    let leaves = encoded_leaves(&["aa11", "bb22"]);
    let commitment = commitment_hex_for(merkle_root(&leaves));
    let model = "0badcafe".to_string();
    let shape = CircuitShape { num_leaves: 2, num_results: 1, num_embedding: 1 };
    let (prover, verifier) = setup_pair(shape);
    let proof_hex = generate_proof(&prover, hashes, "q".to_string(), vec![3], vec![1],
        commitment.clone(), model.clone(), NOW, NOW)
        .unwrap();

    let mut bytes = hex::decode(&proof_hex).unwrap();
    // Flip one bit inside the echoed words: the equation fails.
    bytes[20] ^= 1;
    let tampered = hex::encode(&bytes);
    let verdict = verify_proof(&verifier, &tampered, commitment.clone(), model.clone(), NOW, NOW);
    assert_eq!(verdict.unwrap(), false);

    // Corrupt the magic prefix: the blob is malformed.
    let mut broken = hex::decode(&proof_hex).unwrap();
    broken[0] ^= 0xFF;
    let broken_hex = hex::encode(&broken);
    let outcome = verify_proof(&verifier, &broken_hex, commitment, model, NOW, NOW);
    assert_eq!(outcome.unwrap_err(), ZkError::MalformedProofError);
}

#[test]
fn test_prove_failures() {
    let shape = CircuitShape { num_leaves: 2, num_results: 1, num_embedding: 1 };
    let (prover, _) = setup_pair(shape);

    // Empty hash list: an encoding failure at witness-build time.
    let r = generate_proof(&prover, vec![], "q".to_string(), vec![3], vec![0],
        "aa".to_string(), "bb".to_string(), NOW, NOW);
    assert_eq!(r.unwrap_err(), ZkError::EncodingError);

    // Text that is not hex: an encoding failure.
    let r = generate_proof(&prover, vec!["h1".to_string()], "q".to_string(), vec![3], vec![0],
        "aa".to_string(), "bb".to_string(), NOW, NOW);
    assert_eq!(r.unwrap_err(), ZkError::EncodingError);

    // A stale timestamp: the witness no longer satisfies the window
    // constraint, so no proof is emitted.
    let leaves = encoded_leaves(&["aa11", "bb22"]);
    let commitment = commitment_hex_for(merkle_root(&leaves));
    let r = generate_proof(&prover, vec!["aa11".to_string(), "bb22".to_string()],
        "q".to_string(), vec![3], vec![0], commitment.clone(), "bb".to_string(),
        NOW - 1_000_000, NOW);
    assert_eq!(r.unwrap_err(), ZkError::ConstraintUnsatisfiedError);

    // A forged commitment: unsatisfiable, never proved.
    let r = generate_proof(&prover, vec!["aa11".to_string(), "bb22".to_string()],
        "q".to_string(), vec![3], vec![0], "deadbeef".to_string(), "bb".to_string(), NOW, NOW);
    assert_eq!(r.unwrap_err(), ZkError::ConstraintUnsatisfiedError);

    // A witness of another shape than the loaded key: setup is missing for
    // that shape.
    let r = generate_proof(&prover, vec!["aa11".to_string(), "bb22".to_string()],
        "q".to_string(), vec![3, 4, 5], vec![0], commitment, "bb".to_string(), NOW, NOW);
    assert_eq!(r.unwrap_err(), ZkError::SetupMissingError);

    // No key loaded at all.
    let bare = QueryProver::new().unwrap();
    let witness = QueryWitness::new(vec!["aa11".to_string()], "q".to_string(), vec![],
        vec![], "aa".to_string(), "bb".to_string(), NOW);
    assert_eq!(bare.prove(witness, NOW).unwrap_err(), ZkError::SetupMissingError);
}

#[test]
fn test_setup_and_key_lifecycle() {
    let shape = CircuitShape { num_leaves: 8, num_results: 3, num_embedding: 4 };
    let (pk, vk) = generate_setup(shape).unwrap();
    let pk_bytes = serialize_proving_key(&pk);
    let vk_bytes = serialize_verifying_key(&vk);

    // Canonical serialization reads back unchanged.
    assert_eq!(parse_proving_key(&pk_bytes).unwrap(), pk);
    assert_eq!(parse_verifying_key(&vk_bytes).unwrap(), vk);

    // A missing cached key is surfaced, never regenerated.
    let mut prover = QueryProver::new().unwrap();
    assert_eq!(prover.setup(None).unwrap_err(), ZkError::SetupMissingError);

    // Corrupt key bytes are rejected as malformed.
    let mut corrupt = pk_bytes.clone();
    corrupt[5] ^= 0x40;
    assert_eq!(prover.setup(Some(&corrupt)).unwrap_err(), ZkError::MalformedKeyError);
    let mut verifier = QueryVerifier::new().unwrap();
    assert_eq!(verifier.load_key(&vec![1, 2, 3]).unwrap_err(), ZkError::MalformedKeyError);

    // An out-of-bounds shape is rejected at setup.
    let bad = CircuitShape { num_leaves: 0, num_results: 3, num_embedding: 4 };
    assert_eq!(generate_setup(bad).unwrap_err(), ZkError::EncodingError);
}

#[test]
fn test_key_version_tracks_shape() {
    let shape = CircuitShape { num_leaves: 8, num_results: 3, num_embedding: 4 };
    let same = CircuitShape { num_leaves: 8, num_results: 3, num_embedding: 4 };
    let (_, vk1) = generate_setup(shape).unwrap();
    let (_, vk2) = generate_setup(same).unwrap();
    assert_eq!(vk1.version, vk2.version);

    for other in [
        CircuitShape { num_leaves: 16, num_results: 3, num_embedding: 4 },
        CircuitShape { num_leaves: 8, num_results: 2, num_embedding: 4 },
        CircuitShape { num_leaves: 8, num_results: 3, num_embedding: 5 },
    ] {
        let (_, vk_other) = generate_setup(other).unwrap();
        assert_ne!(vk1.version, vk_other.version);
    }
}

#[test]
fn test_exact_encoding_values() {
    // The hash encoding absorbs bytes base-256 from the domain tag.
    let p = zkrag::field::FIELD_MODULUS as u128;
    let tag = zkrag::encoder::HASH_TAG as u128;
    assert_eq!(encode_hash_string("00").unwrap() as u128, (tag * 256) % p);
    assert_eq!(encode_hash_string("ff").unwrap() as u128, (tag * 256 + 255) % p);
    assert_eq!(
        encode_hash_string("0102").unwrap() as u128,
        ((tag * 256 + 1) * 256 + 2) % p
    );

    // The node hash is the absorbing fold of the children under its tag.
    let base = zkrag::field::FOLD_BASE as u128;
    let l = 123_456_789u64;
    let r = 987_654_321u64;
    let expected = ((((zkrag::merkle::NODE_TAG as u128) * base + l as u128) % p) * base
        + r as u128) % p;
    assert_eq!(zkrag::merkle::node_hash(l, r) as u128, expected);

    // The key version packs the shape into one word under a format tag.
    let shape = CircuitShape { num_leaves: 8, num_results: 3, num_embedding: 4 };
    let (_, vk) = generate_setup(shape).unwrap();
    assert_eq!(vk.version, 8 + 3 * 0x4_0000 + 4 * 0x10_0000_0000 + 0x40_0000_0000_0000);
}

#[test]
fn test_registration_and_query_service() {
    let mut kernel = MockKernel::new();
    assert_eq!(register_document(&mut kernel, "aa11bb22").unwrap(), 1);
    assert_eq!(register_model(&mut kernel, "ccdd").unwrap(), 2);
    assert_eq!(register_document(&mut kernel, "not hex").unwrap_err(), ZkError::EncodingError);
    assert_eq!(kernel.next_id, 3);

    let hashes = vec!["aa11".to_string(), "bb22".to_string()];
    let leaves = encoded_leaves(&["aa11", "bb22"]);
    let commitment = commitment_hex_for(merkle_root(&leaves));
    let model = "ccdd".to_string();
    let shape = CircuitShape { num_leaves: 2, num_results: 1, num_embedding: 0 };
    let (prover, verifier) = setup_pair(shape);
    let proof_hex = generate_proof(&prover, hashes, "q".to_string(), vec![], vec![0],
        commitment.clone(), model.clone(), NOW, NOW)
        .unwrap();

    let verdict = verify_query(&mut kernel, &verifier, &proof_hex, commitment.clone(),
        model.clone(), NOW, NOW)
        .unwrap();
    assert!(verdict.valid);
    assert_eq!(verdict.query_id, 3);
    assert_eq!(kernel.next_id, 4);
    assert_eq!(verdict_message(verdict.valid), "Proof verified successfully");
    assert_eq!(verdict_message(false), "Proof verification failed");

    // A proof that is not hex text at all is malformed.
    let bad = verify_query(&mut kernel, &verifier, "zz", commitment, model, NOW, NOW);
    assert_eq!(bad.unwrap_err(), ZkError::MalformedProofError);
    assert_eq!(kernel.next_id, 4);
}

#[test]
fn test_encoding_edges() {
    // Either letter case decodes to the same field element.
    assert_eq!(encode_hash_string("AB").unwrap(), encode_hash_string("ab").unwrap());
    // Odd length and stray characters are rejected.
    assert_eq!(encode_hash_string("abc").unwrap_err(), ZkError::EncodingError);
    assert_eq!(encode_hash_string("xyz!").unwrap_err(), ZkError::EncodingError);
    // A coordinate over the configured width is rejected at witness build.
    let witness = QueryWitness::new(vec!["aa".to_string()], "q".to_string(),
        vec![i64::MAX], vec![], "aa".to_string(), "bb".to_string(), NOW);
    assert_eq!(witness.to_field_elements().unwrap_err(), ZkError::EncodingError);
    // Within width, encoding succeeds and maps negatives into the field.
    let witness = QueryWitness::new(vec!["aa".to_string()], "q".to_string(),
        vec![-5], vec![], "aa".to_string(), "bb".to_string(), NOW);
    let fields = witness.to_field_elements().unwrap();
    assert_eq!(fields.query_embedding, vec![zkrag::field::FIELD_MODULUS - 5]);
    assert_eq!(fields.timestamp, NOW);
}
