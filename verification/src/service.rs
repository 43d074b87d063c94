//! Service-level operations over the prover and verifier: registration
//! identifiers, and the plain-value prove/verify entry points that outer
//! transport layers wrap.

use vstd::prelude::*;
use crate::hexstr::{bytes_of_hex, hex_decode, hex_encode, hex_of, valid_hex};
use crate::prover::{prove_at_spec, QueryProver};
use crate::verifying::{verify_outcome_spec, PublicInputs, QueryVerifier, VerificationResult};
use crate::keys::VerifyingKeyData;
use crate::witness::QueryWitness;
use crate::ZkError;

verus! {

/// The identifier source of the service: hands out consecutive opaque ids.
pub struct MockKernel {
    /// The next identifier to hand out.
    pub next_id: u64,
}

impl MockKernel {
    /// A kernel whose first identifier is one.
    pub fn new() -> (k: MockKernel)
        ensures
            k.next_id == 1,
    {
        MockKernel { next_id: 1 }
    }

    /// Hand out the next identifier and advance the counter.
    pub fn next_id(&mut self) -> (id: u64)
        requires
            old(self).next_id < u64::MAX,
        ensures
            id == old(self).next_id,
            final(self).next_id == old(self).next_id + 1,
    {
        let id = self.next_id;
        self.next_id = self.next_id + 1;
        id
    }
}

/// Register a document-set commitment: validates the hex commitment and
/// assigns it an identifier.
pub fn register_document(kernel: &mut MockKernel, commitment: &str) -> (r: Result<u64, ZkError>)
    requires
        old(kernel).next_id < u64::MAX,
    ensures
        r is Ok <==> valid_hex(commitment@),
        r is Ok ==> r.unwrap() == old(kernel).next_id
            && final(kernel).next_id == old(kernel).next_id + 1,
        r is Err ==> r == Err::<u64, ZkError>(ZkError::EncodingError)
            && final(kernel).next_id == old(kernel).next_id,
{
    match hex_decode(commitment) {
        Some(_) => Ok(kernel.next_id()),
        None => Err(ZkError::EncodingError),
    }
}

/// Register a model-identity hash: validates the hex hash and assigns it an
/// identifier.
pub fn register_model(kernel: &mut MockKernel, model_hash: &str) -> (r: Result<u64, ZkError>)
    requires
        old(kernel).next_id < u64::MAX,
    ensures
        r is Ok <==> valid_hex(model_hash@),
        r is Ok ==> r.unwrap() == old(kernel).next_id
            && final(kernel).next_id == old(kernel).next_id + 1,
        r is Err ==> r == Err::<u64, ZkError>(ZkError::EncodingError)
            && final(kernel).next_id == old(kernel).next_id,
{
    match hex_decode(model_hash) {
        Some(_) => Ok(kernel.next_id()),
        None => Err(ZkError::EncodingError),
    }
}

/// The verdict of a verification request: the validity flag and the query
/// identifier assigned to the request.
#[derive(Clone, Copy, Debug, PartialEq, Eq, Structural)]
pub struct QueryVerdict {
    /// Whether the proof verified.
    pub valid: bool,
    /// The identifier assigned to this verification request.
    pub query_id: u64,
}

/// The outcome a verification request owes: hex-decode the proof, verify,
/// and tag the verdict with the request identifier.
pub open spec fn verify_query_outcome(
    vk: Option<VerifyingKeyData>,
    proof_hex: Seq<char>,
    pi: PublicInputs,
    now: u64,
    id: u64,
) -> Result<QueryVerdict, ZkError> {
    if !valid_hex(proof_hex) {
        Err(ZkError::MalformedProofError)
    } else {
        match verify_outcome_spec(vk, bytes_of_hex(proof_hex), pi, now) {
            Ok(res) => Ok(QueryVerdict { valid: res.is_valid, query_id: id }),
            Err(e) => Err(e),
        }
    }
}

/// Handle a verification request: decode the hex proof, verify it against
/// the disclosed values, and assign the request an identifier.
pub fn verify_query(
    kernel: &mut MockKernel,
    verifier_inst: &QueryVerifier,
    proof_hex: &str,
    document_commitment: String,
    model_hash: String,
    timestamp: u64,
    now: u64,
) -> (r: Result<QueryVerdict, ZkError>)
    requires
        old(kernel).next_id < u64::MAX,
    ensures
        r == verify_query_outcome(
            verifier_inst.verifying_key,
            proof_hex@,
            (PublicInputs { document_commitment, model_hash, timestamp }),
            now,
            old(kernel).next_id,
        ),
        r is Ok ==> final(kernel).next_id == old(kernel).next_id + 1,
        r is Err ==> final(kernel).next_id == old(kernel).next_id,
{
    let bytes = match hex_decode(proof_hex) {
        Some(b) => b,
        None => {
            return Err(ZkError::MalformedProofError);
        },
    };
    let pi = PublicInputs { document_commitment, model_hash, timestamp };
    match verifier_inst.verify(&bytes, pi, now) {
        Ok(res) => {
            let id = kernel.next_id();
            Ok(QueryVerdict { valid: res.is_valid, query_id: id })
        },
        Err(e) => Err(e),
    }
}

/// The human-readable message of a verdict.
pub fn verdict_message(valid: bool) -> (m: &'static str)
    ensures
        valid ==> m@ == "Proof verified successfully"@,
        !valid ==> m@ == "Proof verification failed"@,
{
    if valid {
        "Proof verified successfully"
    } else {
        "Proof verification failed"
    }
}

/// Build a witness from plain external values, prove it, and return the
/// proof as hex text.
pub fn generate_proof(
    prover_inst: &QueryProver,
    document_hashes: Vec<String>,
    query_text: String,
    query_embedding: Vec<i64>,
    search_results: Vec<usize>,
    document_commitment: String,
    model_hash: String,
    timestamp: u64,
    now: u64,
) -> (r: Result<String, ZkError>)
    ensures
        r is Ok <==> prove_at_spec(
            prover_inst.proving_key,
            (QueryWitness {
                document_hashes,
                query_text,
                query_embedding,
                search_results,
                document_commitment,
                model_hash,
                timestamp,
            }),
            now,
        ) is Ok,
        r is Ok ==> r.unwrap()@ == hex_of(prove_at_spec(
            prover_inst.proving_key,
            (QueryWitness {
                document_hashes,
                query_text,
                query_embedding,
                search_results,
                document_commitment,
                model_hash,
                timestamp,
            }),
            now,
        ).unwrap()),
        r matches Err(e) ==> prove_at_spec(
            prover_inst.proving_key,
            (QueryWitness {
                document_hashes,
                query_text,
                query_embedding,
                search_results,
                document_commitment,
                model_hash,
                timestamp,
            }),
            now,
        ) == Err::<Seq<u8>, ZkError>(e),
{
    let witness = QueryWitness::new(
        document_hashes,
        query_text,
        query_embedding,
        search_results,
        document_commitment,
        model_hash,
        timestamp,
    );
    match prover_inst.prove(witness, now) {
        Ok(p) => Ok(hex_encode(&p)),
        Err(e) => Err(e),
    }
}

/// The outcome a plain verification call owes: hex-decode the proof, then
/// verify.
pub open spec fn verify_proof_outcome(
    vk: Option<VerifyingKeyData>,
    proof_hex: Seq<char>,
    pi: PublicInputs,
    now: u64,
) -> Result<VerificationResult, ZkError> {
    if !valid_hex(proof_hex) {
        Err(ZkError::MalformedProofError)
    } else {
        verify_outcome_spec(vk, bytes_of_hex(proof_hex), pi, now)
    }
}

/// Verify a hex-encoded proof against plain disclosed values, returning the
/// validity flag alone.
pub fn verify_proof(
    verifier_inst: &QueryVerifier,
    proof_hex: &str,
    document_commitment: String,
    model_hash: String,
    timestamp: u64,
    now: u64,
) -> (r: Result<bool, ZkError>)
    ensures
        ({
            let outcome = verify_proof_outcome(
                verifier_inst.verifying_key,
                proof_hex@,
                (PublicInputs { document_commitment, model_hash, timestamp }),
                now,
            );
            &&& r is Ok <==> outcome is Ok
            &&& r is Ok ==> r.unwrap() == outcome.unwrap().is_valid
            &&& r matches Err(e) ==> outcome == Err::<VerificationResult, ZkError>(e)
        }),
{
    match verify_proof_detailed(verifier_inst, proof_hex, document_commitment, model_hash,
        timestamp, now) {
        Ok(res) => Ok(res.is_valid),
        Err(e) => Err(e),
    }
}

/// Verify a hex-encoded proof against plain disclosed values, returning the
/// full verification result.
pub fn verify_proof_detailed(
    verifier_inst: &QueryVerifier,
    proof_hex: &str,
    document_commitment: String,
    model_hash: String,
    timestamp: u64,
    now: u64,
) -> (r: Result<VerificationResult, ZkError>)
    ensures
        r == verify_proof_outcome(
            verifier_inst.verifying_key,
            proof_hex@,
            (PublicInputs { document_commitment, model_hash, timestamp }),
            now,
        ),
{
    let bytes = match hex_decode(proof_hex) {
        Some(b) => b,
        None => {
            return Err(ZkError::MalformedProofError);
        },
    };
    let pi = PublicInputs { document_commitment, model_hash, timestamp };
    verifier_inst.verify(&bytes, pi, now)
}

} // verus!
