//! Canonical byte layout of proofs: little-endian words behind a magic
//! prefix, with a binding digest over the disclosed values.
//!
//! A proof has a fixed shape: its length and structure depend only on the
//! circuit shape behind the key version, never on witness content.

use vstd::prelude::*;
use crate::field::{fe_fold_spec, fe_fold, is_fe, FOLD_BASE};

verus! {

/// First magic byte of a serialized proof.
pub const PROOF_MAGIC_0: u8 = 0x7A;
/// Second magic byte of a serialized proof.
pub const PROOF_MAGIC_1: u8 = 0x6B;
/// Format revision of the proof layout.
pub const PROOF_FORMAT: u8 = 1;
/// Serialized proof length in bytes: magic, format, and five words.
pub const PROOF_LEN: usize = 43;

/// Domain-separation tag that starts the binding digest fold.
pub const DIGEST_TAG: u64 = 0x70;

/// The little-endian bytes of a word.
pub open spec fn le64_spec(v: u64) -> Seq<u8> {
    Seq::new(8, |i: int| ((v >> ((8 * i) as u64)) & 0xFF) as u8)
}

/// The word denoted by eight little-endian bytes.
pub open spec fn le64_val(s: Seq<u8>) -> u64
    recommends
        s.len() == 8,
{
    (s[0] + s[1] * 0x100 + s[2] * 0x1_0000 + s[3] * 0x100_0000 + s[4] * 0x1_0000_0000
        + s[5] * 0x100_0000_0000 + s[6] * 0x1_0000_0000_0000 + s[7] * 0x100_0000_0000_0000) as u64
}

/// Reading back the little-endian bytes of a word yields the word.
pub proof fn lemma_le64_round_trip(v: u64)
    ensures
        le64_val(le64_spec(v)) == v,
{
    assert(((v >> 0u64) & 0xFF) < 0x100 && ((v >> 8u64) & 0xFF) < 0x100
        && ((v >> 16u64) & 0xFF) < 0x100 && ((v >> 24u64) & 0xFF) < 0x100
        && ((v >> 32u64) & 0xFF) < 0x100 && ((v >> 40u64) & 0xFF) < 0x100
        && ((v >> 48u64) & 0xFF) < 0x100 && ((v >> 56u64) & 0xFF) < 0x100) by (bit_vector);
    assert(((v >> 0u64) & 0xFF) + ((v >> 8u64) & 0xFF) * 0x100 + ((v >> 16u64) & 0xFF) * 0x1_0000
        + ((v >> 24u64) & 0xFF) * 0x100_0000 + ((v >> 32u64) & 0xFF) * 0x1_0000_0000
        + ((v >> 40u64) & 0xFF) * 0x100_0000_0000 + ((v >> 48u64) & 0xFF) * 0x1_0000_0000_0000
        + ((v >> 56u64) & 0xFF) * 0x100_0000_0000_0000 == v) by (bit_vector);
    let s = le64_spec(v);
    assert(s[0] == ((v >> 0u64) & 0xFF) as u8);
    assert(s[1] == ((v >> 8u64) & 0xFF) as u8);
    assert(s[2] == ((v >> 16u64) & 0xFF) as u8);
    assert(s[3] == ((v >> 24u64) & 0xFF) as u8);
    assert(s[4] == ((v >> 32u64) & 0xFF) as u8);
    assert(s[5] == ((v >> 40u64) & 0xFF) as u8);
    assert(s[6] == ((v >> 48u64) & 0xFF) as u8);
    assert(s[7] == ((v >> 56u64) & 0xFF) as u8);
}

/// Append the little-endian bytes of a word.
pub fn push_le64(out: &mut Vec<u8>, v: u64)
    ensures
        final(out)@ == old(out)@ + le64_spec(v),
{
    let ghost base = out@;
    let mut k: usize = 0;
    while k < 8
        invariant
            k <= 8,
            out@ == base + le64_spec(v).take(k as int),
        decreases 8 - k,
    {
        let shift: u64 = (8 * k) as u64;
        out.push(((v >> shift) & 0xFF) as u8);
        proof {
            assert(le64_spec(v).take(k as int + 1)
                =~= le64_spec(v).take(k as int).push(((v >> ((8 * k) as u64)) & 0xFF) as u8));
        }
        k = k + 1;
    }
    proof {
        assert(le64_spec(v).take(8) =~= le64_spec(v));
    }
}

/// Read the word at `offset` from eight little-endian bytes.
pub fn read_le64(bytes: &Vec<u8>, offset: usize) -> (r: u64)
    requires
        offset + 8 <= bytes.len(),
    ensures
        r == le64_val(bytes@.subrange(offset as int, offset as int + 8)),
{
    let r: u64 = (bytes[offset] as u64) + (bytes[offset + 1] as u64) * 0x100
        + (bytes[offset + 2] as u64) * 0x1_0000 + (bytes[offset + 3] as u64) * 0x100_0000
        + (bytes[offset + 4] as u64) * 0x1_0000_0000 + (bytes[offset + 5] as u64) * 0x100_0000_0000
        + (bytes[offset + 6] as u64) * 0x1_0000_0000_0000
        + (bytes[offset + 7] as u64) * 0x100_0000_0000_0000;
    r
}

/// The binding digest over the disclosed values of a proof.
pub open spec fn binding_digest_spec(version: u64, commitment: u64, model: u64, timestamp: u64) -> u64 {
    fe_fold_spec(
        fe_fold_spec(fe_fold_spec(fe_fold_spec(DIGEST_TAG, FOLD_BASE, version), FOLD_BASE, commitment), FOLD_BASE, model),
        FOLD_BASE,
        timestamp,
    )
}

/// Compute the binding digest over the disclosed values of a proof.
pub fn binding_digest(version: u64, commitment: u64, model: u64, timestamp: u64) -> (d: u64)
    ensures
        d == binding_digest_spec(version, commitment, model, timestamp),
        is_fe(d),
{
    let d0 = fe_fold(DIGEST_TAG, FOLD_BASE, version);
    let d1 = fe_fold(d0, FOLD_BASE, commitment);
    let d2 = fe_fold(d1, FOLD_BASE, model);
    fe_fold(d2, FOLD_BASE, timestamp)
}

/// The canonical bytes of a proof binding a key version and the three
/// disclosed values.
pub open spec fn proof_bytes_spec(version: u64, commitment: u64, model: u64, timestamp: u64) -> Seq<u8> {
    seq![PROOF_MAGIC_0, PROOF_MAGIC_1, PROOF_FORMAT] + le64_spec(version) + le64_spec(commitment)
        + le64_spec(model) + le64_spec(timestamp)
        + le64_spec(binding_digest_spec(version, commitment, model, timestamp))
}

/// Structural validity of proof bytes: length, magic and format.
pub open spec fn proof_structurally_valid(p: Seq<u8>) -> bool {
    &&& p.len() == PROOF_LEN
    &&& p[0] == PROOF_MAGIC_0
    &&& p[1] == PROOF_MAGIC_1
    &&& p[2] == PROOF_FORMAT
}

/// The key version a structurally valid proof names.
pub open spec fn proof_version(p: Seq<u8>) -> u64 {
    le64_val(p.subrange(3, 11))
}

/// The document commitment a structurally valid proof echoes.
pub open spec fn proof_commitment(p: Seq<u8>) -> u64 {
    le64_val(p.subrange(11, 19))
}

/// The model hash a structurally valid proof echoes.
pub open spec fn proof_model(p: Seq<u8>) -> u64 {
    le64_val(p.subrange(19, 27))
}

/// The timestamp a structurally valid proof echoes.
pub open spec fn proof_timestamp(p: Seq<u8>) -> u64 {
    le64_val(p.subrange(27, 35))
}

/// The binding digest a structurally valid proof carries.
pub open spec fn proof_digest(p: Seq<u8>) -> u64 {
    le64_val(p.subrange(35, 43))
}

/// Serialize a proof.
pub fn encode_proof(version: u64, commitment: u64, model: u64, timestamp: u64) -> (p: Vec<u8>)
    ensures
        p@ == proof_bytes_spec(version, commitment, model, timestamp),
        p@.len() == PROOF_LEN,
{
    let mut p: Vec<u8> = Vec::new();
    p.push(PROOF_MAGIC_0);
    p.push(PROOF_MAGIC_1);
    p.push(PROOF_FORMAT);
    push_le64(&mut p, version);
    push_le64(&mut p, commitment);
    push_le64(&mut p, model);
    let d = binding_digest(version, commitment, model, timestamp);
    push_le64(&mut p, timestamp);
    push_le64(&mut p, d);
    proof {
        assert(p@ =~= proof_bytes_spec(version, commitment, model, timestamp));
    }
    p
}

/// The fields written by `encode_proof` read back unchanged.
pub proof fn lemma_proof_bytes_parse(version: u64, commitment: u64, model: u64, timestamp: u64)
    ensures
        proof_structurally_valid(proof_bytes_spec(version, commitment, model, timestamp)),
        proof_version(proof_bytes_spec(version, commitment, model, timestamp)) == version,
        proof_commitment(proof_bytes_spec(version, commitment, model, timestamp)) == commitment,
        proof_model(proof_bytes_spec(version, commitment, model, timestamp)) == model,
        proof_timestamp(proof_bytes_spec(version, commitment, model, timestamp)) == timestamp,
        proof_digest(proof_bytes_spec(version, commitment, model, timestamp))
            == binding_digest_spec(version, commitment, model, timestamp),
{
    let p = proof_bytes_spec(version, commitment, model, timestamp);
    assert(p.subrange(3, 11) =~= le64_spec(version));
    assert(p.subrange(11, 19) =~= le64_spec(commitment));
    assert(p.subrange(19, 27) =~= le64_spec(model));
    assert(p.subrange(27, 35) =~= le64_spec(timestamp));
    assert(p.subrange(35, 43) =~= le64_spec(binding_digest_spec(version, commitment, model, timestamp)));
    lemma_le64_round_trip(version);
    lemma_le64_round_trip(commitment);
    lemma_le64_round_trip(model);
    lemma_le64_round_trip(timestamp);
    lemma_le64_round_trip(binding_digest_spec(version, commitment, model, timestamp));
}

} // verus!
