//! Proof verification.
//!
//! The verifier requires a loaded verifying key, structurally validates the
//! proof bytes, and evaluates the verification equation against the ordered
//! public inputs (commitment, model hash, timestamp) — the order is a
//! wire-contract invariant shared with the prover. An unsatisfied equation
//! is a valid negative result, not an error. Verification is a pure
//! function of its arguments, so repeated and concurrent calls with the
//! same inputs agree.

use vstd::prelude::*;
use crate::codec::{
    binding_digest, binding_digest_spec, proof_commitment, proof_digest, proof_model,
    proof_structurally_valid, proof_timestamp, proof_version, read_le64, PROOF_FORMAT, PROOF_LEN,
    PROOF_MAGIC_0, PROOF_MAGIC_1,
};
use crate::encoder::{encode_hash_string, encode_hash_val};
use crate::hexstr::valid_hex;
use crate::keys::{parse_verifying_key, verifying_key_bytes_wf, VerifyingKeyData};
use crate::ZkError;

verus! {

/// The public inputs of a verification call, in wire order.
#[derive(Clone, Debug)]
pub struct PublicInputs {
    /// The hex Merkle commitment to the document set.
    pub document_commitment: String,
    /// The hex hash of the model used.
    pub model_hash: String,
    /// The query timestamp, seconds since the epoch.
    pub timestamp: u64,
}

/// The outcome of a verification call: the verdict, the echoed public
/// inputs, and the clock reading the caller supplied.
#[derive(Clone, Debug)]
pub struct VerificationResult {
    /// Whether the proof verified against the public inputs.
    pub is_valid: bool,
    /// The public inputs the verdict speaks of.
    pub public_inputs: PublicInputs,
    /// When the verification was performed.
    pub verified_at: u64,
}

/// Whether both hash-like public inputs are well-formed hex.
pub open spec fn public_inputs_encodable(pi: PublicInputs) -> bool {
    valid_hex(pi.document_commitment@) && valid_hex(pi.model_hash@)
}

/// The verification equation: the proof names the verifying key's version,
/// echoes the encoded public inputs, and carries the binding digest over
/// them.
pub open spec fn verify_valid_spec(version: u64, p: Seq<u8>, pi: PublicInputs) -> bool {
    &&& proof_version(p) == version
    &&& proof_commitment(p) == encode_hash_val(pi.document_commitment@)
    &&& proof_model(p) == encode_hash_val(pi.model_hash@)
    &&& proof_timestamp(p) == pi.timestamp
    &&& proof_digest(p) == binding_digest_spec(
        version,
        encode_hash_val(pi.document_commitment@),
        encode_hash_val(pi.model_hash@),
        pi.timestamp,
    )
}

/// The outcome a verification call owes: which error, or the verdict on the
/// equation.
pub open spec fn verify_outcome_spec(
    vk: Option<VerifyingKeyData>,
    p: Seq<u8>,
    pi: PublicInputs,
    now: u64,
) -> Result<VerificationResult, ZkError> {
    if vk is None {
        Err(ZkError::SetupMissingError)
    } else if !public_inputs_encodable(pi) {
        Err(ZkError::EncodingError)
    } else if !proof_structurally_valid(p) {
        Err(ZkError::MalformedProofError)
    } else {
        Ok(VerificationResult {
            is_valid: verify_valid_spec(vk.unwrap().version, p, pi),
            public_inputs: pi,
            verified_at: now,
        })
    }
}

/// Verifier for document-query proofs.
pub struct QueryVerifier {
    /// The loaded verifying key, if any.
    pub verifying_key: Option<VerifyingKeyData>,
}

impl QueryVerifier {
    /// Create a verifier with no key loaded.
    pub fn new() -> (r: Result<QueryVerifier, ZkError>)
        ensures
            r is Ok,
            r.unwrap().verifying_key is None,
    {
        Ok(QueryVerifier { verifying_key: None })
    }

    /// Load a verifying key from its canonical bytes.
    pub fn load_key(&mut self, key_bytes: &Vec<u8>) -> (r: Result<(), ZkError>)
        ensures
            r is Ok <==> verifying_key_bytes_wf(key_bytes@),
            r is Ok ==> final(self).verifying_key == Some(VerifyingKeyData {
                version: crate::codec::le64_val(key_bytes@.subrange(2, 10)),
            }),
            r is Err ==> r == Err::<(), ZkError>(ZkError::MalformedKeyError)
                && final(self).verifying_key == old(self).verifying_key,
    {
        match parse_verifying_key(key_bytes) {
            Ok(vk) => {
                self.verifying_key = Some(vk);
                Ok(())
            },
            Err(_) => Err(ZkError::MalformedKeyError),
        }
    }

    /// Verify a proof against the ordered public inputs at a clock reading.
    pub fn verify(
        &self,
        proof_bytes: &Vec<u8>,
        public_inputs: PublicInputs,
        now: u64,
    ) -> (r: Result<VerificationResult, ZkError>)
        ensures
            r == verify_outcome_spec(self.verifying_key, proof_bytes@, public_inputs, now),
    {
        let vk = match &self.verifying_key {
            None => {
                return Err(ZkError::SetupMissingError);
            },
            Some(vk) => *vk,
        };
        let commitment = match encode_hash_string(public_inputs.document_commitment.as_str()) {
            Ok(c) => c,
            Err(_) => {
                return Err(ZkError::EncodingError);
            },
        };
        let model = match encode_hash_string(public_inputs.model_hash.as_str()) {
            Ok(m) => m,
            Err(_) => {
                return Err(ZkError::EncodingError);
            },
        };
        if !(proof_bytes.len() == PROOF_LEN && proof_bytes[0] == PROOF_MAGIC_0
            && proof_bytes[1] == PROOF_MAGIC_1 && proof_bytes[2] == PROOF_FORMAT) {
            return Err(ZkError::MalformedProofError);
        }
        let p_version = read_le64(proof_bytes, 3);
        let p_commitment = read_le64(proof_bytes, 11);
        let p_model = read_le64(proof_bytes, 19);
        let p_timestamp = read_le64(proof_bytes, 27);
        let p_digest = read_le64(proof_bytes, 35);
        let expected_digest = binding_digest(vk.version, commitment, model, public_inputs.timestamp);
        let is_valid = p_version == vk.version && p_commitment == commitment && p_model == model
            && p_timestamp == public_inputs.timestamp && p_digest == expected_digest;
        Ok(VerificationResult { is_valid, public_inputs, verified_at: now })
    }
}

impl Default for QueryVerifier {
    /// A verifier with no key loaded.
    fn default() -> (r: Self)
        ensures
            r.verifying_key is None,
    {
        QueryVerifier { verifying_key: None }
    }
}

} // verus!
