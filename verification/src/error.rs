//! The failures an operation of this crate can end in.

use vstd::prelude::*;

verus! {

/// Why an operation failed. Every failure ends the operation that raised it;
/// nothing is retried.
#[derive(Clone, Copy, Debug, PartialEq, Eq, Structural)]
pub enum ThresholdError {
    /// The threshold is below two or above the number of participants.
    InvalidThreshold,
    /// The cryptographic library could not produce the key material.
    KeyGenerationFailure,
    /// A signature share was asked of a signer that holds no nonces.
    NoNoncesAvailable,
    /// The cryptographic library could not compute a signature share.
    SigningFailure,
    /// Fewer signers were selected than the threshold asks for.
    InsufficientSigners,
    /// A signer failed in the second round, or the shares did not combine.
    AggregationFailure,
    /// A selected identifier is zero, names no participant, or occurs twice.
    InvalidIdentifier,
    /// Wire bytes of the wrong length.
    DeserializationFailure,
}

} // verus!
