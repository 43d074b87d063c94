//! The crate-level laws of the proving pipeline, each proved against the
//! contracts the modules state.

use vstd::prelude::*;
use crate::codec::{lemma_proof_bytes_parse, proof_bytes_spec, PROOF_LEN};
use crate::encoder::encode_hash_val;
use crate::keys::{key_version_spec, ProvingKeyData, VerifyingKeyData};
use crate::prover::prove_at_spec;
use crate::verifying::{verify_outcome_spec, verify_valid_spec, PublicInputs, VerificationResult};
use crate::witness::QueryWitness;
use crate::ZkError;

verus! {

/// Whenever proving succeeds on a witness, verifying the emitted proof
/// against that witness's disclosed values, under the verifying key of the
/// same setup, returns a positive verdict.
pub proof fn law_prove_verify_round_trip(
    pk: ProvingKeyData,
    w: QueryWitness,
    now: u64,
    pi: PublicInputs,
)
    requires
        prove_at_spec(Some(pk), w, now) is Ok,
        pi.document_commitment@ == w.document_commitment@,
        pi.model_hash@ == w.model_hash@,
        pi.timestamp == w.timestamp,
    ensures
        ({
            let vk = VerifyingKeyData { version: key_version_spec(pk.shape) };
            let p = prove_at_spec(Some(pk), w, now).unwrap();
            &&& verify_outcome_spec(Some(vk), p, pi, now) is Ok
            &&& verify_outcome_spec(Some(vk), p, pi, now).unwrap().is_valid
        }),
{
    let version = key_version_spec(pk.shape);
    let commitment = encode_hash_val(w.document_commitment@);
    let model = encode_hash_val(w.model_hash@);
    lemma_proof_bytes_parse(version, commitment, model, w.timestamp);
}

/// The round trip holds across the hex transport too: hex-encoding the
/// emitted proof and handing the text to the plain verification entry
/// point returns the same positive verdict.
pub proof fn law_transport_round_trip(
    pk: ProvingKeyData,
    w: QueryWitness,
    now: u64,
    pi: PublicInputs,
)
    requires
        prove_at_spec(Some(pk), w, now) is Ok,
        pi.document_commitment@ == w.document_commitment@,
        pi.model_hash@ == w.model_hash@,
        pi.timestamp == w.timestamp,
    ensures
        ({
            let vk = VerifyingKeyData { version: key_version_spec(pk.shape) };
            let hex = crate::hexstr::hex_of(prove_at_spec(Some(pk), w, now).unwrap());
            &&& crate::service::verify_proof_outcome(Some(vk), hex, pi, now) is Ok
            &&& crate::service::verify_proof_outcome(Some(vk), hex, pi, now).unwrap().is_valid
        }),
{
    crate::hexstr::lemma_hex_round_trip(prove_at_spec(Some(pk), w, now).unwrap());
    law_prove_verify_round_trip(pk, w, now, pi);
}

/// Any change to a public input after proof generation — a different
/// encoded commitment, a different encoded model hash, or any change at all
/// to the timestamp — makes the fixed proof verify negatively.
pub proof fn law_public_input_binding(
    version: u64,
    p: Seq<u8>,
    pi1: PublicInputs,
    pi2: PublicInputs,
)
    requires
        verify_valid_spec(version, p, pi1),
        encode_hash_val(pi2.document_commitment@) != encode_hash_val(pi1.document_commitment@)
            || encode_hash_val(pi2.model_hash@) != encode_hash_val(pi1.model_hash@)
            || pi2.timestamp != pi1.timestamp,
    ensures
        !verify_valid_spec(version, p, pi2),
{
}

/// Flipping any single bit of the commitment a verifier is handed makes
/// the verification equation fail against an unchanged proof. The same
/// argument covers the model hash; the timestamp is covered by any change
/// at all.
pub proof fn law_commitment_bit_flip_rejected(
    version: u64,
    p: Seq<u8>,
    pi1: PublicInputs,
    pi2: PublicInputs,
    j: int,
    k: u64,
)
    requires
        verify_valid_spec(version, p, pi1),
        crate::hexstr::valid_hex(pi1.document_commitment@),
        crate::hexstr::valid_hex(pi2.document_commitment@),
        ({
            let b1 = crate::hexstr::bytes_of_hex(pi1.document_commitment@);
            let b2 = crate::hexstr::bytes_of_hex(pi2.document_commitment@);
            &&& b1.len() == b2.len()
            &&& 0 <= j < b1.len()
            &&& k < 8
            &&& forall|i: int| 0 <= i < b1.len() && i != j ==> b1[i] == b2[i]
            &&& b2[j] == b1[j] ^ (1u8 << k)
        }),
    ensures
        !verify_valid_spec(version, p, pi2),
{
    crate::encoder::law_bit_flip_changes_digest(
        crate::hexstr::bytes_of_hex(pi1.document_commitment@),
        crate::hexstr::bytes_of_hex(pi2.document_commitment@),
        j,
        k,
    );
}

/// Proof bytes have a fixed length and depend only on the key version and
/// the disclosed values: two successful proofs under one key over the same
/// disclosed values are byte-identical, whatever their query text or
/// embedding content.
pub proof fn law_proof_shape_invariant(
    pk: ProvingKeyData,
    w1: QueryWitness,
    w2: QueryWitness,
    now: u64,
)
    requires
        prove_at_spec(Some(pk), w1, now) is Ok,
        prove_at_spec(Some(pk), w2, now) is Ok,
        w1.document_commitment@ == w2.document_commitment@,
        w1.model_hash@ == w2.model_hash@,
        w1.timestamp == w2.timestamp,
    ensures
        prove_at_spec(Some(pk), w1, now).unwrap() == prove_at_spec(Some(pk), w2, now).unwrap(),
        prove_at_spec(Some(pk), w1, now).unwrap().len() == PROOF_LEN as int,
{
    let version = key_version_spec(pk.shape);
    let commitment = encode_hash_val(w1.document_commitment@);
    let model = encode_hash_val(w1.model_hash@);
    lemma_proof_bytes_parse(version, commitment, model, w1.timestamp);
    assert(proof_bytes_spec(version, commitment, model, w1.timestamp).len() == PROOF_LEN as int);
}

/// Verification is a pure function of the key, the proof bytes, the public
/// inputs and the clock reading: two calls on the same arguments return the
/// same result, so repeated or concurrent verification is idempotent.
pub proof fn law_verification_idempotent(
    vk: Option<VerifyingKeyData>,
    p: Seq<u8>,
    pi: PublicInputs,
    now: u64,
    r1: Result<VerificationResult, ZkError>,
    r2: Result<VerificationResult, ZkError>,
)
    requires
        r1 == verify_outcome_spec(vk, p, pi, now),
        r2 == verify_outcome_spec(vk, p, pi, now),
    ensures
        r1 == r2,
{
}

} // verus!
