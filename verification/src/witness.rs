//! The query witness: the private data a proof attests to, in its external
//! form, and its deterministic encoding into field elements.
//!
//! Witnesses are created per call and are ephemeral; they never cross the
//! verification boundary.

use vstd::prelude::*;
use crate::circuit::{MAX_EMBEDDING, MAX_RESULTS};
use crate::encoder::{
    encode_embedding, encode_embedding_seq, encode_hash_string, encode_hash_val, within_width,
};
use crate::field::{is_fe, FIELD_MODULUS};
use crate::hexstr::valid_hex;
use crate::merkle::MAX_LEAVES;
use crate::ZkError;

verus! {

/// The witness of one document query.
///
/// The embedding arrives already quantized to fixed-point integers; the
/// quantization scale is a documented boundary concern of the caller.
pub struct QueryWitness {
    /// Private: hex hashes of the documents in the committed set.
    pub document_hashes: Vec<String>,
    /// Private: the query text, never revealed and never encoded into the
    /// public binding.
    pub query_text: String,
    /// Private: the quantized query embedding.
    pub query_embedding: Vec<i64>,
    /// Private: indices of the retrieved chunks.
    pub search_results: Vec<usize>,
    /// Public: the hex Merkle commitment to the document set.
    pub document_commitment: String,
    /// Public: the hex hash of the model used.
    pub model_hash: String,
    /// Public: the query timestamp, seconds since the epoch.
    pub timestamp: u64,
}

/// The field-element form of a witness, ready for circuit construction.
#[derive(Debug)]
pub struct WitnessFields {
    /// Field-encoded document hashes.
    pub document_hashes: Vec<u64>,
    /// Field-encoded embedding coordinates.
    pub query_embedding: Vec<u64>,
    /// Retrieved indices as field elements.
    pub search_results: Vec<u64>,
    /// Field-encoded document commitment.
    pub document_commitment: u64,
    /// Field-encoded model hash.
    pub model_hash: u64,
    /// The timestamp, carried as a machine word.
    pub timestamp: u64,
}

/// Whether every external value of a witness encodes: a non-empty document
/// list within bounds, well-formed hex everywhere, coordinates within the
/// configured width, and indices below the field modulus.
pub open spec fn witness_encodable(w: QueryWitness) -> bool {
    &&& 1 <= w.document_hashes@.len() <= MAX_LEAVES as int
    &&& forall|i: int| 0 <= i < w.document_hashes@.len()
        ==> valid_hex(#[trigger] w.document_hashes@[i]@)
    &&& w.query_embedding@.len() <= MAX_EMBEDDING as int
    &&& forall|i: int| 0 <= i < w.query_embedding@.len()
        ==> within_width(#[trigger] w.query_embedding@[i])
    &&& w.search_results@.len() <= MAX_RESULTS as int
    &&& forall|i: int| 0 <= i < w.search_results@.len()
        ==> (#[trigger] w.search_results@[i] as u64) < FIELD_MODULUS
    &&& valid_hex(w.document_commitment@)
    &&& valid_hex(w.model_hash@)
}

/// The encoded document-hash row of a witness.
pub open spec fn encoded_hashes_seq(w: QueryWitness) -> Seq<u64> {
    Seq::new(w.document_hashes@.len(), |i: int| encode_hash_val(w.document_hashes@[i]@))
}

/// The encoded retrieved-index row of a witness.
pub open spec fn encoded_results_seq(w: QueryWitness) -> Seq<u64> {
    Seq::new(w.search_results@.len(), |i: int| w.search_results@[i] as u64)
}

/// The field-element form an encodable witness denotes.
pub open spec fn witness_fields_spec(w: QueryWitness, f: WitnessFields) -> bool {
    &&& f.document_hashes@ == encoded_hashes_seq(w)
    &&& f.query_embedding@ == encode_embedding_seq(w.query_embedding@)
    &&& f.search_results@ == encoded_results_seq(w)
    &&& f.document_commitment == encode_hash_val(w.document_commitment@)
    &&& f.model_hash == encode_hash_val(w.model_hash@)
    &&& f.timestamp == w.timestamp
}

/// The rows an encodable witness encodes to are well-formed circuit rows.
pub proof fn lemma_encodable_rows_wf(w: QueryWitness)
    requires
        witness_encodable(w),
    ensures
        crate::circuit::rows_well_formed(
            encoded_hashes_seq(w),
            encode_embedding_seq(w.query_embedding@),
            encoded_results_seq(w),
            encode_hash_val(w.document_commitment@),
            encode_hash_val(w.model_hash@),
        ),
{
    assert forall|i: int| 0 <= i < encoded_hashes_seq(w).len()
        implies is_fe(#[trigger] encoded_hashes_seq(w)[i]) by {
        crate::encoder::lemma_fold_bytes_spec_fe(
            crate::encoder::HASH_TAG,
            crate::hexstr::bytes_of_hex(w.document_hashes@[i]@),
        );
    }
    assert forall|i: int| 0 <= i < encode_embedding_seq(w.query_embedding@).len()
        implies is_fe(#[trigger] encode_embedding_seq(w.query_embedding@)[i]) by {
        assert(within_width(w.query_embedding@[i]));
    }
    assert forall|i: int| 0 <= i < encoded_results_seq(w).len()
        implies is_fe(#[trigger] encoded_results_seq(w)[i]) by {
        assert((w.search_results@[i] as u64) < FIELD_MODULUS);
    }
    crate::encoder::lemma_fold_bytes_spec_fe(
        crate::encoder::HASH_TAG,
        crate::hexstr::bytes_of_hex(w.document_commitment@),
    );
    crate::encoder::lemma_fold_bytes_spec_fe(
        crate::encoder::HASH_TAG,
        crate::hexstr::bytes_of_hex(w.model_hash@),
    );
}

impl QueryWitness {
    /// Assemble a witness from its external values.
    pub fn new(
        document_hashes: Vec<String>,
        query_text: String,
        query_embedding: Vec<i64>,
        search_results: Vec<usize>,
        document_commitment: String,
        model_hash: String,
        timestamp: u64,
    ) -> (w: Self)
        ensures
            w.document_hashes == document_hashes,
            w.query_text == query_text,
            w.query_embedding == query_embedding,
            w.search_results == search_results,
            w.document_commitment == document_commitment,
            w.model_hash == model_hash,
            w.timestamp == timestamp,
    {
        Self {
            document_hashes,
            query_text,
            query_embedding,
            search_results,
            document_commitment,
            model_hash,
            timestamp,
        }
    }

    /// Encode the witness into field elements for circuit construction.
    ///
    /// Fails with `EncodingError` exactly when some external value is
    /// malformed: an empty or oversized document list, text that is not
    /// well-formed hex, a coordinate over the configured width, or an index
    /// at or above the field modulus.
    pub fn to_field_elements(&self) -> (r: Result<WitnessFields, ZkError>)
        ensures
            r is Ok <==> witness_encodable(*self),
            r is Err ==> r == Err::<WitnessFields, ZkError>(ZkError::EncodingError),
            r is Ok ==> witness_fields_spec(*self, r.unwrap()),
    {
        if self.document_hashes.len() < 1 || self.document_hashes.len() > MAX_LEAVES {
            return Err(ZkError::EncodingError);
        }
        if self.query_embedding.len() > MAX_EMBEDDING || self.search_results.len() > MAX_RESULTS {
            return Err(ZkError::EncodingError);
        }
        let mut hashes: Vec<u64> = Vec::new();
        let mut i: usize = 0;
        while i < self.document_hashes.len()
            invariant
                i <= self.document_hashes@.len(),
                forall|k: int| 0 <= k < i ==> valid_hex(#[trigger] self.document_hashes@[k]@),
                hashes@ == encoded_hashes_seq(*self).take(i as int),
            decreases self.document_hashes@.len() - i,
        {
            match encode_hash_string(self.document_hashes[i].as_str()) {
                Ok(h) => {
                    hashes.push(h);
                    proof {
                        assert(hashes@ =~= encoded_hashes_seq(*self).take(i as int + 1));
                    }
                },
                Err(_) => {
                    return Err(ZkError::EncodingError);
                },
            }
            i = i + 1;
        }
        proof {
            assert(encoded_hashes_seq(*self).take(self.document_hashes@.len() as int)
                =~= encoded_hashes_seq(*self));
        }
        let embedding = match encode_embedding(&self.query_embedding) {
            Ok(e) => e,
            Err(_) => {
                return Err(ZkError::EncodingError);
            },
        };
        let mut results: Vec<u64> = Vec::new();
        let mut j: usize = 0;
        while j < self.search_results.len()
            invariant
                j <= self.search_results@.len(),
                forall|k: int| 0 <= k < j ==> (#[trigger] self.search_results@[k] as u64)
                    < FIELD_MODULUS,
                results@ == encoded_results_seq(*self).take(j as int),
            decreases self.search_results@.len() - j,
        {
            let idx = self.search_results[j] as u64;
            if idx >= FIELD_MODULUS {
                return Err(ZkError::EncodingError);
            }
            results.push(idx);
            proof {
                assert(results@ =~= encoded_results_seq(*self).take(j as int + 1));
            }
            j = j + 1;
        }
        proof {
            assert(encoded_results_seq(*self).take(self.search_results@.len() as int)
                =~= encoded_results_seq(*self));
        }
        let commitment = match encode_hash_string(self.document_commitment.as_str()) {
            Ok(c) => c,
            Err(_) => {
                return Err(ZkError::EncodingError);
            },
        };
        let model = match encode_hash_string(self.model_hash.as_str()) {
            Ok(m) => m,
            Err(_) => {
                return Err(ZkError::EncodingError);
            },
        };
        Ok(WitnessFields {
            document_hashes: hashes,
            query_embedding: embedding,
            search_results: results,
            document_commitment: commitment,
            model_hash: model,
            timestamp: self.timestamp,
        })
    }
}

} // verus!
