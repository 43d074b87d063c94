//! The document-query constraint circuit.
//!
//! One fixed relation over (witness, public inputs): the committed leaves
//! must recompute the public document commitment; every retrieved index must
//! name a distinct leaf below the leaf count; the public timestamp must lie
//! inside the acceptance window; and every allocated value must be a
//! canonical field representative. The circuit also reports its constraint
//! count and public-input count for setup auditing.

use vstd::prelude::*;
use crate::field::is_fe;
use crate::merkle::{all_fe, merkle_root, merkle_root_spec, next_pow2, next_pow2_exec, MAX_LEAVES};
use crate::ZkError;

verus! {

/// Most retrieved indices a circuit instance may carry.
pub const MAX_RESULTS: usize = 0x1_0000;

/// Most embedding coordinates a circuit instance may carry.
pub const MAX_EMBEDDING: usize = 0x1_0000;

/// Number of public inputs of the relation: commitment, model hash,
/// timestamp.
pub const PUBLIC_INPUT_COUNT: u64 = 3;

/// The shape of a circuit instance: the quantities that fix its constraint
/// structure, independent of any witness content.
#[derive(Clone, Copy, Debug, PartialEq, Eq, Structural)]
pub struct CircuitShape {
    /// Leaf slots of the padded commitment tree.
    pub num_leaves: u64,
    /// Retrieved-index slots.
    pub num_results: u64,
    /// Embedding coordinate slots.
    pub num_embedding: u64,
}

/// An instance of the document-query relation.
///
/// The first three rows are private witness data; the remaining fields are
/// the disclosed values and the agreed acceptance window.
pub struct DocumentQueryCircuit {
    /// Private: field-encoded document hashes, the committed leaves.
    pub document_hashes: Vec<u64>,
    /// Private: field-encoded quantized query embedding.
    pub query_embedding: Vec<u64>,
    /// Private: retrieved leaf indices.
    pub search_results: Vec<u64>,
    /// Public: the Merkle commitment to the document set.
    pub document_commitment: u64,
    /// Public: the field-encoded model-identity hash.
    pub model_hash: u64,
    /// Public: the query timestamp, seconds since the epoch.
    pub timestamp: u64,
    /// Start of the agreed acceptance window for the timestamp.
    pub window_start: u64,
    /// End of the agreed acceptance window for the timestamp.
    pub window_end: u64,
}

/// No two retrieved indices coincide.
pub open spec fn pairwise_distinct(s: Seq<u64>) -> bool {
    forall|i: int, j: int| 0 <= i < j < s.len() ==> s[i] != s[j]
}

/// Well-formedness of the rows of an instance: every allocated value is
/// canonical and every row fits the configured bounds.
pub open spec fn rows_well_formed(
    hashes: Seq<u64>,
    embedding: Seq<u64>,
    results: Seq<u64>,
    commitment: u64,
    model: u64,
) -> bool {
    &&& 1 <= hashes.len() <= MAX_LEAVES as int
    &&& results.len() <= MAX_RESULTS as int
    &&& embedding.len() <= MAX_EMBEDDING as int
    &&& all_fe(hashes)
    &&& all_fe(embedding)
    &&& all_fe(results)
    &&& is_fe(commitment)
    &&& is_fe(model)
}

/// The document-query relation over its rows, disclosed values, and the
/// acceptance window.
pub open spec fn relation_holds(
    hashes: Seq<u64>,
    embedding: Seq<u64>,
    results: Seq<u64>,
    commitment: u64,
    model: u64,
    timestamp: u64,
    window_start: u64,
    window_end: u64,
) -> bool {
    &&& rows_well_formed(hashes, embedding, results, commitment, model)
    &&& merkle_root_spec(hashes) == commitment
    &&& forall|i: int| 0 <= i < results.len() ==> #[trigger] results[i] < hashes.len()
    &&& pairwise_distinct(results)
    &&& window_start <= timestamp <= window_end
}

/// Well-formedness of an instance.
pub open spec fn circuit_well_formed(c: DocumentQueryCircuit) -> bool {
    rows_well_formed(
        c.document_hashes@,
        c.query_embedding@,
        c.search_results@,
        c.document_commitment,
        c.model_hash,
    )
}

/// Satisfaction of the relation by an instance.
pub open spec fn circuit_satisfied(c: DocumentQueryCircuit) -> bool {
    relation_holds(
        c.document_hashes@,
        c.query_embedding@,
        c.search_results@,
        c.document_commitment,
        c.model_hash,
        c.timestamp,
        c.window_start,
        c.window_end,
    )
}

/// The shape of an instance.
pub open spec fn shape_spec(c: DocumentQueryCircuit) -> CircuitShape {
    CircuitShape {
        num_leaves: next_pow2(c.document_hashes@.len()) as u64,
        num_results: c.search_results@.len() as u64,
        num_embedding: c.query_embedding@.len() as u64,
    }
}

/// The constraint count of a shape: one hash constraint per interior tree
/// node, one bound and a quadratic set of distinctness constraints for the
/// retrieved indices, one well-formedness constraint per embedding
/// coordinate, and two range constraints for the timestamp window.
pub open spec fn num_constraints_spec(s: CircuitShape) -> int {
    (s.num_leaves - 1) + s.num_results + (s.num_results * (s.num_results - 1)) / 2
        + s.num_embedding + 2
}

impl DocumentQueryCircuit {
    /// Build an instance of the relation from encoded rows, disclosed
    /// values, and the agreed acceptance window.
    pub fn new(
        document_hashes: Vec<u64>,
        query_embedding: Vec<u64>,
        search_results: Vec<u64>,
        document_commitment: u64,
        model_hash: u64,
        timestamp: u64,
        window_start: u64,
        window_end: u64,
    ) -> (c: Self)
        ensures
            c == (DocumentQueryCircuit {
                document_hashes,
                query_embedding,
                search_results,
                document_commitment,
                model_hash,
                timestamp,
                window_start,
                window_end,
            }),
    {
        Self {
            document_hashes,
            query_embedding,
            search_results,
            document_commitment,
            model_hash,
            timestamp,
            window_start,
            window_end,
        }
    }

    /// The shape of this instance.
    pub fn shape(&self) -> (s: CircuitShape)
        requires
            circuit_well_formed(*self),
        ensures
            s == shape_spec(*self),
    {
        CircuitShape {
            num_leaves: next_pow2_exec(self.document_hashes.len()) as u64,
            num_results: self.search_results.len() as u64,
            num_embedding: self.query_embedding.len() as u64,
        }
    }

    /// Evaluate every constraint of the relation on this instance.
    ///
    /// Succeeds exactly when the instance satisfies the relation; a witness
    /// that fails any constraint is reported, never silently accepted.
    pub fn generate_constraints(&self) -> (r: Result<(), ZkError>)
        ensures
            r is Ok <==> circuit_satisfied(*self),
            r is Err ==> r == Err::<(), ZkError>(ZkError::ConstraintUnsatisfiedError),
    {
        if !self.check_well_formed() {
            return Err(ZkError::ConstraintUnsatisfiedError);
        }
        let root = merkle_root(&self.document_hashes);
        if root != self.document_commitment {
            return Err(ZkError::ConstraintUnsatisfiedError);
        }
        if !check_bounds(&self.search_results, self.document_hashes.len() as u64) {
            return Err(ZkError::ConstraintUnsatisfiedError);
        }
        if !check_distinct(&self.search_results) {
            return Err(ZkError::ConstraintUnsatisfiedError);
        }
        if !(self.window_start <= self.timestamp && self.timestamp <= self.window_end) {
            return Err(ZkError::ConstraintUnsatisfiedError);
        }
        Ok(())
    }

    /// Check well-formedness of the instance.
    pub fn check_well_formed(&self) -> (r: bool)
        ensures
            r == circuit_well_formed(*self),
    {
        if self.document_hashes.len() < 1 || self.document_hashes.len() > MAX_LEAVES {
            return false;
        }
        if self.search_results.len() > MAX_RESULTS || self.query_embedding.len() > MAX_EMBEDDING {
            return false;
        }
        check_all_fe(&self.document_hashes) && check_all_fe(&self.query_embedding)
            && check_all_fe(&self.search_results)
            && self.document_commitment < crate::field::FIELD_MODULUS
            && self.model_hash < crate::field::FIELD_MODULUS
    }
}

/// The interface every privacy circuit of the crate offers: a family name
/// and the audited counts of its constraint system.
pub trait PrivacyCircuit {
    /// Well-formedness of an instance.
    spec fn wf(&self) -> bool;

    /// The audited constraint count, as mathematics.
    spec fn spec_num_constraints(&self) -> int;

    /// The number of public inputs, as mathematics.
    spec fn spec_num_public_inputs(&self) -> int;

    /// The circuit family name.
    fn name(&self) -> (r: &'static str);

    /// The constraint count, for setup auditing.
    fn num_constraints(&self) -> (r: u64)
        requires
            self.wf(),
        ensures
            r == self.spec_num_constraints(),
    ;

    /// The public-input count, for setup auditing.
    fn num_public_inputs(&self) -> (r: u64)
        requires
            self.wf(),
        ensures
            r == self.spec_num_public_inputs(),
    ;
}

impl PrivacyCircuit for DocumentQueryCircuit {
    open spec fn wf(&self) -> bool {
        circuit_well_formed(*self)
    }

    open spec fn spec_num_constraints(&self) -> int {
        num_constraints_spec(shape_spec(*self))
    }

    open spec fn spec_num_public_inputs(&self) -> int {
        PUBLIC_INPUT_COUNT as int
    }

    fn name(&self) -> (r: &'static str) {
        "DocumentQueryCircuit"
    }

    fn num_constraints(&self) -> (r: u64) {
        let s = self.shape();
        let nr = s.num_results;
        let pairs: u64 = if nr == 0 {
            0
        } else {
            proof {
                assert(nr * (nr - 1) <= 0x1_0000 * 0x1_0000) by (nonlinear_arith)
                    requires
                        0 < nr <= 0x1_0000,
                ;
            }
            (nr * (nr - 1)) / 2
        };
        proof {
            crate::merkle::lemma_next_pow2_bounds(self.document_hashes@.len() as nat);
        }
        (s.num_leaves - 1) + nr + pairs + s.num_embedding + 2
    }

    fn num_public_inputs(&self) -> (r: u64) {
        PUBLIC_INPUT_COUNT
    }
}

/// Check that every element of a row is a canonical representative.
fn check_all_fe(v: &Vec<u64>) -> (r: bool)
    ensures
        r == all_fe(v@),
{
    let mut i: usize = 0;
    while i < v.len()
        invariant
            i <= v.len(),
            forall|k: int| 0 <= k < i ==> is_fe(#[trigger] v@[k]),
        decreases v.len() - i,
    {
        if v[i] >= crate::field::FIELD_MODULUS {
            return false;
        }
        i = i + 1;
    }
    true
}

/// Check that every retrieved index lies below the leaf count.
fn check_bounds(v: &Vec<u64>, bound: u64) -> (r: bool)
    ensures
        r == forall|i: int| 0 <= i < v@.len() ==> #[trigger] v@[i] < bound,
{
    let mut i: usize = 0;
    while i < v.len()
        invariant
            i <= v.len(),
            forall|k: int| 0 <= k < i ==> #[trigger] v@[k] < bound,
        decreases v.len() - i,
    {
        if v[i] >= bound {
            return false;
        }
        i = i + 1;
    }
    true
}

/// Check that no two retrieved indices coincide.
fn check_distinct(v: &Vec<u64>) -> (r: bool)
    ensures
        r == pairwise_distinct(v@),
{
    let mut i: usize = 0;
    while i < v.len()
        invariant
            i <= v.len(),
            forall|a: int, b: int| 0 <= a < b < i ==> v@[a] != v@[b],
        decreases v.len() - i,
    {
        let mut j: usize = 0;
        while j < i
            invariant
                j <= i,
                i < v@.len(),
                forall|a: int, b: int| 0 <= a < b < i ==> v@[a] != v@[b],
                forall|b: int| 0 <= b < j ==> v@[b] != v@[i as int],
            decreases i - j,
        {
            if v[j] == v[i] {
                return false;
            }
            j = j + 1;
        }
        i = i + 1;
    }
    true
}

} // verus!
