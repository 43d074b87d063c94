//! Proof generation.
//!
//! The prover requires a loaded proving key matching the witness's circuit
//! shape, builds the constraint-system instance, checks satisfiability, and
//! serializes the proof canonically. It never emits a proof for an
//! unsatisfiable witness. The caller supplies the clock reading, so proving
//! itself is a pure function of its arguments.

use vstd::prelude::*;
use crate::circuit::{relation_holds, CircuitShape, DocumentQueryCircuit};
use crate::codec::{encode_proof, proof_bytes_spec, PROOF_LEN};
use crate::encoder::{encode_embedding_seq, encode_hash_val};
use crate::keys::{
    key_version, key_version_spec, parse_proving_key, proving_key_bytes_wf,
    proving_key_parse_shape, shape_bounded, ProvingKeyData,
};
use crate::merkle::{lemma_next_pow2_bounds, next_pow2};
use crate::witness::{
    encoded_hashes_seq, encoded_results_seq, witness_encodable, QueryWitness,
};
use crate::ZkError;

verus! {

/// How far in the past a proved timestamp may lie, in seconds.
pub const PROOF_MAX_AGE_SECS: u64 = 86400;

/// How far ahead of the clock a proved timestamp may lie, in seconds.
pub const CLOCK_SKEW_SECS: u64 = 300;

/// Start of the acceptance window for a clock reading.
pub open spec fn window_start_spec(now: u64) -> u64 {
    if now >= PROOF_MAX_AGE_SECS {
        (now - PROOF_MAX_AGE_SECS) as u64
    } else {
        0
    }
}

/// End of the acceptance window for a clock reading.
pub open spec fn window_end_spec(now: u64) -> u64 {
    if now + CLOCK_SKEW_SECS <= u64::MAX {
        (now + CLOCK_SKEW_SECS) as u64
    } else {
        u64::MAX
    }
}

/// The circuit shape an encodable witness induces.
pub open spec fn witness_shape_spec(w: QueryWitness) -> CircuitShape {
    CircuitShape {
        num_leaves: next_pow2(w.document_hashes@.len()) as u64,
        num_results: w.search_results@.len() as u64,
        num_embedding: w.query_embedding@.len() as u64,
    }
}

/// The outcome of proving a witness under a key at a clock reading: which
/// error is owed, or the canonical proof bytes.
pub open spec fn prove_at_spec(
    pk: Option<ProvingKeyData>,
    w: QueryWitness,
    now: u64,
) -> Result<Seq<u8>, ZkError> {
    if pk is None {
        Err(ZkError::SetupMissingError)
    } else if !witness_encodable(w) {
        Err(ZkError::EncodingError)
    } else if witness_shape_spec(w) != pk.unwrap().shape {
        Err(ZkError::SetupMissingError)
    } else if !relation_holds(
        encoded_hashes_seq(w),
        encode_embedding_seq(w.query_embedding@),
        encoded_results_seq(w),
        encode_hash_val(w.document_commitment@),
        encode_hash_val(w.model_hash@),
        w.timestamp,
        window_start_spec(now),
        window_end_spec(now),
    ) {
        Err(ZkError::ConstraintUnsatisfiedError)
    } else {
        Ok(proof_bytes_spec(
            key_version_spec(pk.unwrap().shape),
            encode_hash_val(w.document_commitment@),
            encode_hash_val(w.model_hash@),
            w.timestamp,
        ))
    }
}

/// Prover for document-query circuits.
pub struct QueryProver {
    /// The loaded proving key, if setup has run.
    pub proving_key: Option<ProvingKeyData>,
}

impl QueryProver {
    /// Create a prover with no key loaded.
    pub fn new() -> (r: Result<QueryProver, ZkError>)
        ensures
            r is Ok,
            r.unwrap().proving_key is None,
    {
        Ok(QueryProver { proving_key: None })
    }

    /// Load the cached proving key, if the operator has provided one.
    ///
    /// A missing key is surfaced as `SetupMissingError`; it is never
    /// regenerated here, since regeneration would invalidate every proof
    /// issued against the old key. Corrupt bytes are `MalformedKeyError`.
    pub fn setup(&mut self, cached_key: Option<&Vec<u8>>) -> (r: Result<(), ZkError>)
        ensures
            cached_key is None ==> r == Err::<(), ZkError>(ZkError::SetupMissingError)
                && final(self).proving_key == old(self).proving_key,
            cached_key is Some ==> {
                &&& r is Ok <==> proving_key_bytes_wf(cached_key.unwrap()@)
                &&& r is Ok ==> final(self).proving_key == Some(ProvingKeyData {
                    shape: proving_key_parse_shape(cached_key.unwrap()@),
                })
                &&& r is Err ==> r == Err::<(), ZkError>(ZkError::MalformedKeyError)
                    && final(self).proving_key == old(self).proving_key
            },
    {
        match cached_key {
            None => Err(ZkError::SetupMissingError),
            Some(bytes) => {
                match parse_proving_key(bytes) {
                    Ok(pk) => {
                        self.proving_key = Some(pk);
                        Ok(())
                    },
                    Err(_) => Err(ZkError::MalformedKeyError),
                }
            },
        }
    }

    /// Generate a proof for a query witness at a clock reading.
    ///
    /// Fails rather than emit a proof whenever the key is missing or does
    /// not match the witness's shape, the witness does not encode, or the
    /// encoded instance does not satisfy the relation.
    #[verifier::rlimit(100)]
    pub fn prove(&self, witness: QueryWitness, now: u64) -> (r: Result<Vec<u8>, ZkError>)
        ensures
            r is Ok <==> prove_at_spec(self.proving_key, witness, now) is Ok,
            r is Ok ==> r.unwrap()@ == prove_at_spec(self.proving_key, witness, now).unwrap(),
            r is Ok ==> r.unwrap()@.len() == PROOF_LEN,
            r matches Err(e) ==> prove_at_spec(self.proving_key, witness, now)
                == Err::<Seq<u8>, ZkError>(e),
    {
        let pk = match &self.proving_key {
            None => {
                return Err(ZkError::SetupMissingError);
            },
            Some(pk) => *pk,
        };
        let ghost spec_r = prove_at_spec(self.proving_key, witness, now);
        let fields = match witness.to_field_elements() {
            Ok(f) => f,
            Err(e) => {
                proof {
                    assert(spec_r == Err::<Seq<u8>, ZkError>(ZkError::EncodingError));
                }
                return Err(e);
            },
        };
        let window_start = if now >= PROOF_MAX_AGE_SECS { now - PROOF_MAX_AGE_SECS } else { 0 };
        let window_end = if now <= u64::MAX - CLOCK_SKEW_SECS { now + CLOCK_SKEW_SECS } else { u64::MAX };
        let circuit = DocumentQueryCircuit::new(
            fields.document_hashes,
            fields.query_embedding,
            fields.search_results,
            fields.document_commitment,
            fields.model_hash,
            fields.timestamp,
            window_start,
            window_end,
        );
        proof {
            assert(circuit.document_hashes@ == encoded_hashes_seq(witness));
            assert(circuit.query_embedding@ == encode_embedding_seq(witness.query_embedding@));
            assert(circuit.search_results@ == encoded_results_seq(witness));
            assert(circuit.document_commitment == encode_hash_val(witness.document_commitment@));
            assert(circuit.model_hash == encode_hash_val(witness.model_hash@));
            assert(circuit.timestamp == witness.timestamp);
            assert(window_start == window_start_spec(now));
            assert(window_end == window_end_spec(now));
            crate::witness::lemma_encodable_rows_wf(witness);
            assert(crate::circuit::circuit_well_formed(circuit));
        }
        let shape = circuit.shape();
        proof {
            assert(circuit.document_hashes@.len() == witness.document_hashes@.len());
            assert(shape == witness_shape_spec(witness));
        }
        if !(shape.num_leaves == pk.shape.num_leaves && shape.num_results == pk.shape.num_results
            && shape.num_embedding == pk.shape.num_embedding) {
            proof {
                assert(witness_shape_spec(witness) != pk.shape);
                assert(spec_r == Err::<Seq<u8>, ZkError>(ZkError::SetupMissingError));
            }
            return Err(ZkError::SetupMissingError);
        }
        proof {
            assert(witness_shape_spec(witness) == pk.shape);
        }
        match circuit.generate_constraints() {
            Ok(()) => {},
            Err(e) => {
                proof {
                    assert(!crate::circuit::circuit_satisfied(circuit));
                    assert(spec_r == Err::<Seq<u8>, ZkError>(ZkError::ConstraintUnsatisfiedError));
                }
                return Err(e);
            },
        }
        proof {
            lemma_next_pow2_bounds(witness.document_hashes@.len() as nat);
            assert(shape_bounded(shape));
        }
        let version = key_version(shape);
        let p = encode_proof(version, circuit.document_commitment, circuit.model_hash, circuit.timestamp);
        proof {
            assert(crate::circuit::circuit_satisfied(circuit));
            assert(spec_r == Ok::<Seq<u8>, ZkError>(proof_bytes_spec(
                key_version_spec(pk.shape),
                encode_hash_val(witness.document_commitment@),
                encode_hash_val(witness.model_hash@),
                witness.timestamp,
            )));
            assert(p@ == spec_r.unwrap());
        }
        Ok(p)
    }
}

impl Default for QueryProver {
    /// A prover with no key loaded.
    fn default() -> (r: Self)
        ensures
            r.proving_key is None,
    {
        QueryProver { proving_key: None }
    }
}

} // verus!
