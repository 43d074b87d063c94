//! Zero-knowledge attestation of retrieval-augmented document queries.
//!
//! A prover shows that it queried a registered, committed document set with an
//! approved model inside an agreed time window, without revealing the query
//! text, the embedding, or which chunks were retrieved. A proof publicly binds
//! three disclosed values: a document-set commitment, a model-identity hash,
//! and a timestamp.
//!
//! The pipeline runs leaf-first: [`field`] fixes the scalar field, [`encoder`]
//! maps external values into it, [`merkle`] commits to document sets,
//! [`circuit`] composes the constraint relation, [`keys`] versions and
//! serializes setup material, [`prover`] and [`verifying`] emit and check
//! proofs over the [`codec`] byte layout, and [`service`] exposes the
//! plain-value entry points that transport layers wrap. [`laws`] states and
//! proves the crate-level guarantees. The only executable code taken on trust
//! is the pair of hex wrappers in [`hexstr`]; every caller is proved against
//! their stated denotation.

use vstd::prelude::*;

pub mod circuit;
pub mod codec;
pub mod encoder;
pub mod field;
pub mod hexstr;
pub mod keys;
pub mod laws;
pub mod merkle;
pub mod prover;
pub mod service;
pub mod verifying;
pub mod witness;

verus! {

/// Error taxonomy of the proving pipeline.
///
/// An unsatisfied verification equation is not an error: the verifier reports
/// it as a negative result. Only malformed external values, unsatisfiable
/// witnesses, missing setup material and structurally corrupt bytes fail.
#[derive(Clone, Copy, Debug, PartialEq, Eq, Structural)]
pub enum ZkError {
    /// A malformed external value (bad hex, value over the configured width).
    EncodingError,
    /// The witness does not satisfy the circuit; no proof may be emitted.
    ConstraintUnsatisfiedError,
    /// No cached key material; requires an operator-run setup ceremony.
    SetupMissingError,
    /// Proof bytes failed structural validation.
    MalformedProofError,
    /// Key bytes failed structural validation.
    MalformedKeyError,
}

} // verus!
