//! Key lifecycle: versioning by constraint shape, canonical serialization,
//! and loading of cached key material.
//!
//! Keys are generated once per circuit shape by an explicit setup step and
//! persist for the shape's lifetime. A missing key is surfaced as
//! `SetupMissingError` and never silently regenerated, since regeneration
//! would invalidate every proof issued against the old key.

use vstd::prelude::*;
use crate::circuit::CircuitShape;
use crate::codec::{le64_spec, le64_val, lemma_le64_round_trip, push_le64, read_le64};
use crate::ZkError;

verus! {

/// First byte of a serialized proving key.
pub const PROVING_KEY_MAGIC: u8 = 0xA1;

/// First byte of a serialized verifying key.
pub const VERIFYING_KEY_MAGIC: u8 = 0xA2;

/// Format revision of the key layout.
pub const KEY_FORMAT: u8 = 1;

/// Serialized proving-key length: magic, format, three shape words, version.
pub const PROVING_KEY_LEN: usize = 34;

/// Serialized verifying-key length: magic, format, version word.
pub const VERIFYING_KEY_LEN: usize = 10;

/// Bounds under which a shape can be packed into one version word.
pub open spec fn shape_bounded(s: CircuitShape) -> bool {
    &&& 1 <= s.num_leaves <= 0x2_0000
    &&& s.num_results <= 0x2_0000
    &&& s.num_embedding <= 0x2_0000
}

/// The version identifier of a circuit shape: the shape packed into one
/// word under a format tag. Distinct bounded shapes pack to distinct words.
pub open spec fn key_version_spec(s: CircuitShape) -> u64
    recommends
        shape_bounded(s),
{
    (s.num_leaves + s.num_results * 0x4_0000 + s.num_embedding * 0x10_0000_0000
        + 0x40_0000_0000_0000) as u64
}

/// Compute the version identifier of a bounded circuit shape.
pub fn key_version(s: CircuitShape) -> (v: u64)
    requires
        shape_bounded(s),
    ensures
        v == key_version_spec(s),
{
    s.num_leaves + s.num_results * 0x4_0000 + s.num_embedding * 0x10_0000_0000
        + 0x40_0000_0000_0000
}

/// Two circuits of one constraint shape get one version identifier, and any
/// change of shape changes the identifier.
pub proof fn law_key_version_injective(a: CircuitShape, b: CircuitShape)
    requires
        shape_bounded(a),
        shape_bounded(b),
    ensures
        key_version_spec(a) == key_version_spec(b) <==> a == b,
{
    let a1 = a.num_leaves;
    let b1 = a.num_results;
    let c1 = a.num_embedding;
    let a2 = b.num_leaves;
    let b2 = b.num_results;
    let c2 = b.num_embedding;
    assert((a1 <= 0x2_0000 && b1 <= 0x2_0000 && c1 <= 0x2_0000 && a2 <= 0x2_0000 && b2 <= 0x2_0000
        && c2 <= 0x2_0000 && a1 + b1 * 0x4_0000 + c1 * 0x10_0000_0000 + 0x40_0000_0000_0000 == a2
        + b2 * 0x4_0000 + c2 * 0x10_0000_0000 + 0x40_0000_0000_0000) ==> (a1 == a2 && b1 == b2
        && c1 == c2)) by (bit_vector);
}

/// Proving-key material for one circuit shape.
#[derive(Clone, Copy, Debug, PartialEq, Eq, Structural)]
pub struct ProvingKeyData {
    /// The constraint shape the key was set up for.
    pub shape: CircuitShape,
}

/// Verifying-key material: the version word proofs must name.
#[derive(Clone, Copy, Debug, PartialEq, Eq, Structural)]
pub struct VerifyingKeyData {
    /// The version identifier of the shape the key was set up for.
    pub version: u64,
}

/// Run the one-time setup for a circuit shape, yielding both keys.
///
/// Rejects shapes outside the packing bounds as malformed external values.
pub fn generate_setup(shape: CircuitShape) -> (r: Result<(ProvingKeyData, VerifyingKeyData), ZkError>)
    ensures
        r is Ok <==> shape_bounded(shape),
        r is Err ==> r == Err::<(ProvingKeyData, VerifyingKeyData), ZkError>(ZkError::EncodingError),
        r is Ok ==> r.unwrap().0.shape == shape && r.unwrap().1.version == key_version_spec(shape),
{
    if 1 <= shape.num_leaves && shape.num_leaves <= 0x2_0000 && shape.num_results <= 0x2_0000
        && shape.num_embedding <= 0x2_0000 {
        let version = key_version(shape);
        Ok((ProvingKeyData { shape }, VerifyingKeyData { version }))
    } else {
        Err(ZkError::EncodingError)
    }
}

/// The canonical bytes of a proving key.
pub open spec fn proving_key_bytes_spec(s: CircuitShape) -> Seq<u8> {
    seq![PROVING_KEY_MAGIC, KEY_FORMAT] + le64_spec(s.num_leaves) + le64_spec(s.num_results)
        + le64_spec(s.num_embedding) + le64_spec(key_version_spec(s))
}

/// The canonical bytes of a verifying key.
pub open spec fn verifying_key_bytes_spec(version: u64) -> Seq<u8> {
    seq![VERIFYING_KEY_MAGIC, KEY_FORMAT] + le64_spec(version)
}

/// The shape named by proving-key bytes of the right length.
pub open spec fn proving_key_parse_shape(b: Seq<u8>) -> CircuitShape {
    CircuitShape {
        num_leaves: le64_val(b.subrange(2, 10)),
        num_results: le64_val(b.subrange(10, 18)),
        num_embedding: le64_val(b.subrange(18, 26)),
    }
}

/// Structural validity of proving-key bytes: length, magic, format, bounded
/// shape, and a version word consistent with the shape.
pub open spec fn proving_key_bytes_wf(b: Seq<u8>) -> bool {
    &&& b.len() == PROVING_KEY_LEN
    &&& b[0] == PROVING_KEY_MAGIC
    &&& b[1] == KEY_FORMAT
    &&& shape_bounded(proving_key_parse_shape(b))
    &&& le64_val(b.subrange(26, 34)) == key_version_spec(proving_key_parse_shape(b))
}

/// Structural validity of verifying-key bytes.
pub open spec fn verifying_key_bytes_wf(b: Seq<u8>) -> bool {
    &&& b.len() == VERIFYING_KEY_LEN
    &&& b[0] == VERIFYING_KEY_MAGIC
    &&& b[1] == KEY_FORMAT
}

/// Serialize a proving key canonically.
pub fn serialize_proving_key(pk: &ProvingKeyData) -> (b: Vec<u8>)
    requires
        shape_bounded(pk.shape),
    ensures
        b@ == proving_key_bytes_spec(pk.shape),
{
    let mut b: Vec<u8> = Vec::new();
    b.push(PROVING_KEY_MAGIC);
    b.push(KEY_FORMAT);
    push_le64(&mut b, pk.shape.num_leaves);
    push_le64(&mut b, pk.shape.num_results);
    push_le64(&mut b, pk.shape.num_embedding);
    let v = key_version(pk.shape);
    push_le64(&mut b, v);
    proof {
        assert(b@ =~= proving_key_bytes_spec(pk.shape));
    }
    b
}

/// Serialize a verifying key canonically.
pub fn serialize_verifying_key(vk: &VerifyingKeyData) -> (b: Vec<u8>)
    ensures
        b@ == verifying_key_bytes_spec(vk.version),
{
    let mut b: Vec<u8> = Vec::new();
    b.push(VERIFYING_KEY_MAGIC);
    b.push(KEY_FORMAT);
    push_le64(&mut b, vk.version);
    proof {
        assert(b@ =~= verifying_key_bytes_spec(vk.version));
    }
    b
}

/// Deserialize a proving key, rejecting structurally corrupt bytes.
pub fn parse_proving_key(bytes: &Vec<u8>) -> (r: Result<ProvingKeyData, ZkError>)
    ensures
        r is Ok <==> proving_key_bytes_wf(bytes@),
        r is Err ==> r == Err::<ProvingKeyData, ZkError>(ZkError::MalformedKeyError),
        r is Ok ==> r.unwrap().shape == proving_key_parse_shape(bytes@)
            && shape_bounded(r.unwrap().shape),
{
    if bytes.len() != PROVING_KEY_LEN {
        return Err(ZkError::MalformedKeyError);
    }
    if bytes[0] != PROVING_KEY_MAGIC || bytes[1] != KEY_FORMAT {
        return Err(ZkError::MalformedKeyError);
    }
    let num_leaves = read_le64(bytes, 2);
    let num_results = read_le64(bytes, 10);
    let num_embedding = read_le64(bytes, 18);
    let version = read_le64(bytes, 26);
    let shape = CircuitShape { num_leaves, num_results, num_embedding };
    if !(1 <= num_leaves && num_leaves <= 0x2_0000 && num_results <= 0x2_0000
        && num_embedding <= 0x2_0000) {
        return Err(ZkError::MalformedKeyError);
    }
    if version != key_version(shape) {
        return Err(ZkError::MalformedKeyError);
    }
    Ok(ProvingKeyData { shape })
}

/// Deserialize a verifying key, rejecting structurally corrupt bytes.
pub fn parse_verifying_key(bytes: &Vec<u8>) -> (r: Result<VerifyingKeyData, ZkError>)
    ensures
        r is Ok <==> verifying_key_bytes_wf(bytes@),
        r is Err ==> r == Err::<VerifyingKeyData, ZkError>(ZkError::MalformedKeyError),
        r is Ok ==> r.unwrap().version == le64_val(bytes@.subrange(2, 10)),
{
    if bytes.len() != VERIFYING_KEY_LEN {
        return Err(ZkError::MalformedKeyError);
    }
    if bytes[0] != VERIFYING_KEY_MAGIC || bytes[1] != KEY_FORMAT {
        return Err(ZkError::MalformedKeyError);
    }
    let version = read_le64(bytes, 2);
    Ok(VerifyingKeyData { version })
}

/// Serialized keys read back unchanged.
pub proof fn lemma_key_round_trip(s: CircuitShape, version: u64)
    requires
        shape_bounded(s),
    ensures
        proving_key_bytes_wf(proving_key_bytes_spec(s)),
        proving_key_parse_shape(proving_key_bytes_spec(s)) == s,
        verifying_key_bytes_wf(verifying_key_bytes_spec(version)),
        le64_val(verifying_key_bytes_spec(version).subrange(2, 10)) == version,
{
    let pb = proving_key_bytes_spec(s);
    assert(pb.subrange(2, 10) =~= le64_spec(s.num_leaves));
    assert(pb.subrange(10, 18) =~= le64_spec(s.num_results));
    assert(pb.subrange(18, 26) =~= le64_spec(s.num_embedding));
    assert(pb.subrange(26, 34) =~= le64_spec(key_version_spec(s)));
    lemma_le64_round_trip(s.num_leaves);
    lemma_le64_round_trip(s.num_results);
    lemma_le64_round_trip(s.num_embedding);
    lemma_le64_round_trip(key_version_spec(s));
    let vb = verifying_key_bytes_spec(version);
    assert(vb.subrange(2, 10) =~= le64_spec(version));
    lemma_le64_round_trip(version);
}

} // verus!
