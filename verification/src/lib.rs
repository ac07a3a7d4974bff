//! Threshold Schnorr signing: a coordinator and its signers run the two-round
//! FROST protocol over Ed25519 and exchange fixed-width wire messages.

pub mod coordinator;
pub mod error;
pub mod keys;
pub mod primitives;
pub mod serialization;
pub mod signer;

pub use coordinator::{CoordinatorState, ThresholdCoordinator};
pub use error::ThresholdError;
pub use keys::generate_frost_keys;
pub use primitives::{
    KeyPackage, PublicKeyPackage, SignatureShare, SigningCommitments, SigningNonces,
    SigningPackage,
};
pub use serialization::{
    deserialize, serialize, CombinedSignature, SignerMessage, SignerResponse, WireMessage,
};
pub use signer::{SignerPhase, SignerState, ThresholdSigner};
