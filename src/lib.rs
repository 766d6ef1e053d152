//! A commit-carrying zkSNARK core over BLS12-381: the scalar field and its
//! radix-2 evaluation domains, group elements in their uncompressed
//! encodings, Pedersen commitments, the KW15 subspace argument with the
//! cp_link protocol built on it, and the Mirage prover and verifier.
use vstd::prelude::*;

pub mod commit;
pub mod curve;
pub mod curve_io;
pub mod domain;
pub mod field;
pub mod kw15;
pub mod mirage;
pub mod trace;
pub mod transcript;

verus! {

/// Failures while synthesizing a circuit or building a proof.
#[derive(Clone, Copy, Debug, PartialEq, Eq, Structural)]
pub enum SynthesisError {
    /// A value needed at proving time was not supplied.
    AssignmentMissing,
    /// An element that had to be inverted was zero.
    DivisionByZero,
    /// The constraints do not hold for the assignment.
    Unsatisfiable,
    /// The evaluation domain would exceed the field's 2-adic capacity.
    PolynomialDegreeTooLarge,
    /// A key element was the identity where it must not be.
    UnexpectedIdentity,
    /// The parameters do not have the shape that the circuit needs.
    MalformedParameters,
    /// A linear combination names a variable that was never allocated.
    UnknownVariable,
    /// An auxiliary block was ended with no variable allocated in it.
    EmptyAuxBlock,
}

/// Failures while verifying a proof.
#[derive(Clone, Copy, Debug, PartialEq, Eq, Structural)]
pub enum VerificationError {
    /// The pairing equation does not hold.
    InvalidProof,
    /// The verifying key does not match the proof or the public inputs.
    InvalidVerifyingKey,
}

} // verus!
