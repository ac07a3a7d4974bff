//! A signer: one key share and the nonce slot of the session in flight.

use crate::error::ThresholdError;
use crate::primitives::{
    commit, key_package_verifying_key, nonce_commitments, sign, signature_share_for, KeyPackage,
    SignatureShare, SigningCommitments, SigningNonces, SigningPackage,
};
use crate::serialization::{deserialize, serialize, SignerMessage, SignerResponse, WireMessage};
use vstd::prelude::*;

verus! {

/// One participant of the signing protocol.
///
/// The nonce slot holds the nonces of at most one session. The first round
/// fills it, the second round empties it: no pair of nonces is used twice.
pub struct ThresholdSigner {
    pub index: u16,
    pub key_package: KeyPackage,
    pub signing_nonces: Option<SigningNonces>,
    pub signing_commitments: Option<SigningCommitments>,
}

/// Where a signer stands in a session.
pub enum SignerPhase {
    /// No session yet: no nonces, no commitments.
    Idle,
    /// The first round is done and its nonces wait for the second.
    NoncesGenerated,
    /// The nonces of the last session are spent; its commitments remain.
    ShareComputed,
}

/// What a signer holds, as plain values.
pub struct SignerState {
    pub index: u16,
    pub key_package: Seq<u8>,
    pub nonces: Option<Seq<u8>>,
    pub commitments: Option<Seq<u8>>,
}

impl View for ThresholdSigner {
    type V = SignerState;

    open spec fn view(&self) -> SignerState {
        SignerState {
            index: self.index,
            key_package: self.key_package@,
            nonces: match self.signing_nonces {
                Some(n) => Some(n@),
                None => None,
            },
            commitments: match self.signing_commitments {
                Some(c) => Some(c@),
                None => None,
            },
        }
    }
}

impl SignerState {
    /// The phase that the two slots spell out.
    pub open spec fn phase(self) -> SignerPhase {
        if self.nonces is Some {
            SignerPhase::NoncesGenerated
        } else if self.commitments is Some {
            SignerPhase::ShareComputed
        } else {
            SignerPhase::Idle
        }
    }

    /// This state with `nonces` and `commitments` in its two slots, in
    /// place of whatever the slots held.
    pub open spec fn holding(self, nonces: Seq<u8>, commitments: Seq<u8>) -> SignerState {
        SignerState { nonces: Some(nonces), commitments: Some(commitments), ..self }
    }

    /// This state with both slots empty.
    pub open spec fn emptied(self) -> SignerState {
        SignerState { nonces: None, commitments: None, ..self }
    }

    /// Whether `next`, with the commitments `published`, is a state that the
    /// first round may leave behind.
    ///
    /// Where the round succeeds, the key share is one that decodes, the nonce
    /// slot holds nonces whose commitments are exactly the published ones,
    /// and these are in the commitment slot; whatever the slots held before
    /// is gone. Where it fails, it fails with `SigningFailure` and both slots
    /// are empty. It fails whenever the key share does not decode.
    pub open spec fn first_round(
        self,
        next: SignerState,
        published: Result<Seq<u8>, ThresholdError>,
    ) -> bool {
        match published {
            Ok(c) => {
                &&& key_package_verifying_key(self.key_package) is Some
                &&& exists|nonces: Seq<u8>|
                    #[trigger] nonce_commitments(nonces) == Some(c) && next == self.holding(
                        nonces,
                        c,
                    )
            },
            Err(e) => e == ThresholdError::SigningFailure && next == self.emptied(),
        }
    }

    /// Whether `next` is what a first round that succeeded leaves behind once
    /// its nonces are discarded: the key share is one that decodes, the
    /// commitments of the round remain and the nonce slot is empty.
    pub open spec fn first_round_discarded(self, next: SignerState) -> bool {
        &&& key_package_verifying_key(self.key_package) is Some
        &&& next.commitments is Some
        &&& next == (SignerState { nonces: None, commitments: next.commitments, ..self })
    }

    /// Whether `next`, with `response`, is what answering the encoded
    /// `request` may leave behind.
    ///
    /// A request of the wrong width is refused with `DeserializationFailure`
    /// and changes nothing. Any other starts the first round; the response
    /// is then the signer's index, as one byte, followed by the hash and the
    /// commitment of the request as they came.
    pub open spec fn answers(
        self,
        request: Seq<u8>,
        next: SignerState,
        response: Result<Seq<u8>, ThresholdError>,
    ) -> bool {
        if request.len() != SignerMessage::wire_len() {
            next == self && response == Err::<Seq<u8>, _>(
                ThresholdError::DeserializationFailure,
            )
        } else {
            match response {
                Ok(bytes) => self.first_round(next, Ok(next.commitments->Some_0)) && bytes
                    == seq![(self.index % 256) as u8] + request.subrange(1, 65),
                Err(e) => self.first_round(next, Err(e)),
            }
        }
    }

    /// The state after the second round, whatever it returned: the nonce
    /// slot is empty.
    pub open spec fn spent(self) -> SignerState {
        SignerState { nonces: None, ..self }
    }

    /// What the second round returns for `signing_package`.
    pub open spec fn second_round(self, signing_package: Seq<u8>) -> Result<
        Seq<u8>,
        ThresholdError,
    > {
        match self.nonces {
            None => Err(ThresholdError::NoNoncesAvailable),
            Some(nonces) => match signature_share_for(signing_package, nonces, self.key_package) {
                Some(share) => Ok(share),
                None => Err(ThresholdError::SigningFailure),
            },
        }
    }
}

/// The encoding inside a result of the first round.
pub open spec fn published_bytes(published: Result<SigningCommitments, ThresholdError>) -> Result<
    Seq<u8>,
    ThresholdError,
> {
    match published {
        Ok(c) => Ok(c@),
        Err(e) => Err(e),
    }
}

/// The encoding inside a result of the second round.
pub open spec fn share_result_bytes(share: Result<SignatureShare, ThresholdError>) -> Result<
    Seq<u8>,
    ThresholdError,
> {
    match share {
        Ok(s) => Ok(s@),
        Err(e) => Err(e),
    }
}

/// The bytes inside a response.
pub open spec fn response_bytes(response: Result<Vec<u8>, ThresholdError>) -> Result<
    Seq<u8>,
    ThresholdError,
> {
    match response {
        Ok(bytes) => Ok(bytes@),
        Err(e) => Err(e),
    }
}

impl ThresholdSigner {
    /// A signer in phase `Idle`.
    pub fn new(index: u16, key_package: KeyPackage) -> (signer: Self)
        ensures
            signer@ == (SignerState {
                index,
                key_package: key_package@,
                nonces: None,
                commitments: None,
            }),
            signer@.phase() == SignerPhase::Idle,
    {
        Self { index, key_package, signing_nonces: None, signing_commitments: None }
    }

    /// Puts a pair of nonces and their commitments into the two slots, in
    /// place of whatever the slots held, and hands the commitments back for
    /// publication. The signer is then in phase `NoncesGenerated`, whatever
    /// phase it was in.
    pub fn store_nonces(&mut self, nonces: SigningNonces, commitments: SigningCommitments) -> (published:
        SigningCommitments)
        ensures
            final(self)@ == old(self)@.holding(nonces@, commitments@),
            published@ == commitments@,
            final(self)@.phase() == SignerPhase::NoncesGenerated,
    {
        self.signing_nonces = Some(nonces);
        self.signing_commitments = Some(commitments.clone());
        commitments
    }

    /// Round 1: draws fresh nonces with the signing share of this signer's
    /// key package, keeps them for the second round and returns their
    /// commitments. Nonces of an earlier session that were never used are
    /// overwritten.
    ///
    /// Fails with `SigningFailure` where the cryptographic library draws
    /// nothing, as it does for a key share that does not decode; both slots
    /// are then empty.
    pub fn round1_generate_nonces(&mut self) -> (published: Result<
        SigningCommitments,
        ThresholdError,
    >)
        ensures
            old(self)@.first_round(final(self)@, published_bytes(published)),
            key_package_verifying_key(old(self)@.key_package) is None ==> published is Err,
            published matches Ok(c) ==> final(self)@.phase() == SignerPhase::NoncesGenerated
                && nonce_commitments(final(self)@.nonces->Some_0) == Some(c@),
    {
        match commit(&self.key_package) {
            Some((nonces, commitments)) => Ok(self.store_nonces(nonces, commitments)),
            None => {
                self.signing_nonces = None;
                self.signing_commitments = None;
                Err(ThresholdError::SigningFailure)
            },
        }
    }

    /// Round 2: takes the nonces out of their slot and computes this signer's
    /// share of the signature on the message of `signing_package`.
    ///
    /// Fails with `NoNoncesAvailable` where the slot is empty, and with
    /// `SigningFailure` where the cryptographic library refuses the package.
    /// The slot is empty afterwards in every case.
    pub fn round2_sign(&mut self, _message: &[u8], signing_package: &SigningPackage) -> (share:
        Result<SignatureShare, ThresholdError>)
        ensures
            final(self)@ == old(self)@.spent(),
            share_result_bytes(share) == old(self)@.second_round(signing_package@),
    {
        match self.signing_nonces.take() {
            None => Err(ThresholdError::NoNoncesAvailable),
            Some(nonces) => match sign(signing_package, &nonces, &self.key_package) {
                Some(share) => Ok(share),
                None => Err(ThresholdError::SigningFailure),
            },
        }
    }

    /// Answers an encoded `SignerMessage` with an encoded `SignerResponse`,
    /// and starts the signer's first round on the way.
    pub fn receive_serialized_signing_request(&mut self, serialized_msg: &[u8]) -> (response:
        Result<Vec<u8>, ThresholdError>)
        ensures
            old(self)@.answers(serialized_msg@, final(self)@, response_bytes(response)),
    {
        let msg: SignerMessage = match deserialize(serialized_msg) {
            Ok(msg) => msg,
            Err(e) => {
                return Err(e);
            },
        };
        match self.round1_generate_nonces() {
            Ok(_) => {},
            Err(e) => {
                return Err(e);
            },
        }
        let response = SignerResponse {
            signer_index: (self.index % 256) as u8,
            signature_share: msg.message_hash,
            nonce_share: msg.nonce_commitment,
        };
        let bytes = serialize(&response);
        proof {
            assert(bytes@ == seq![(self.index % 256) as u8] + serialized_msg@.subrange(1, 65));
        }
        Ok(bytes)
    }
}

/// Nonces sign once: whatever state a signer was in and whatever the second
/// round returned, the nonce slot is empty after it, so that a second call,
/// for the same signing package or another, fails with `NoNoncesAvailable`
/// and leaves the signer as it is.
pub proof fn lemma_nonces_are_single_use(signer: SignerState, again: Seq<u8>)
    ensures
        signer.spent().second_round(again) == Err::<Seq<u8>, _>(
            ThresholdError::NoNoncesAvailable,
        ),
        signer.spent().spent() == signer.spent(),
        signer.spent().phase() != SignerPhase::NoncesGenerated,
{
}

} // verus!
