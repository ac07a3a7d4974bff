//! The cryptographic collaborator: FROST over Ed25519 as the `frost-ed25519`
//! crate implements it, Ed25519 verification from `ed25519-dalek`, and SHA-256
//! from `sha2`.
//!
//! Every protocol value crosses this boundary in its canonical byte encoding.
//! The functions below that carry `external_body` are not proved: each hands
//! its arguments to the outside crate and its contract is that crate's
//! behaviour as its source shows it.

use sha2::Digest;
use std::collections::BTreeMap;
use vstd::prelude::*;

verus! {

/// One participant's long-lived key share: identifier, signing share,
/// verifying share, group verifying key and threshold, in the encoding of
/// `frost_ed25519::keys::KeyPackage`. Secret.
#[derive(PartialEq, Eq)]
pub struct KeyPackage {
    pub bytes: Vec<u8>,
}

/// The group verifying key and every participant's verifying share, in the
/// encoding of `frost_ed25519::keys::PublicKeyPackage`.
#[derive(Debug, PartialEq, Eq)]
pub struct PublicKeyPackage {
    pub bytes: Vec<u8>,
}

/// The hiding and the binding nonce of one signing session, in the encoding
/// of `frost_ed25519::round1::SigningNonces`. Secret, and good for one
/// signature share only.
#[derive(PartialEq, Eq)]
pub struct SigningNonces {
    pub bytes: Vec<u8>,
}

/// The public commitments to a pair of nonces, in the encoding of
/// `frost_ed25519::round1::SigningCommitments`.
#[derive(Debug, PartialEq, Eq)]
pub struct SigningCommitments {
    pub bytes: Vec<u8>,
}

/// The message of a session with the commitments of its signers, ordered by
/// identifier, in the encoding of `frost_ed25519::SigningPackage`.
#[derive(Debug, PartialEq, Eq)]
pub struct SigningPackage {
    pub bytes: Vec<u8>,
}

/// One signer's share of a signature: a scalar in its 32-byte encoding.
#[derive(Debug, PartialEq, Eq)]
pub struct SignatureShare {
    pub bytes: Vec<u8>,
}

impl View for KeyPackage {
    type V = Seq<u8>;

    open spec fn view(&self) -> Seq<u8> {
        self.bytes@
    }
}

impl View for PublicKeyPackage {
    type V = Seq<u8>;

    open spec fn view(&self) -> Seq<u8> {
        self.bytes@
    }
}

impl View for SigningNonces {
    type V = Seq<u8>;

    open spec fn view(&self) -> Seq<u8> {
        self.bytes@
    }
}

impl View for SigningCommitments {
    type V = Seq<u8>;

    open spec fn view(&self) -> Seq<u8> {
        self.bytes@
    }
}

impl View for SigningPackage {
    type V = Seq<u8>;

    open spec fn view(&self) -> Seq<u8> {
        self.bytes@
    }
}

impl View for SignatureShare {
    type V = Seq<u8>;

    open spec fn view(&self) -> Seq<u8> {
        self.bytes@
    }
}

impl Clone for KeyPackage {
    fn clone(&self) -> (copy: Self)
        ensures
            copy@ == self@,
    {
        KeyPackage { bytes: self.bytes.clone() }
    }
}

impl Clone for PublicKeyPackage {
    fn clone(&self) -> (copy: Self)
        ensures
            copy@ == self@,
    {
        PublicKeyPackage { bytes: self.bytes.clone() }
    }
}

impl Clone for SigningCommitments {
    fn clone(&self) -> (copy: Self)
        ensures
            copy@ == self@,
    {
        SigningCommitments { bytes: self.bytes.clone() }
    }
}

impl Clone for SigningPackage {
    fn clone(&self) -> (copy: Self)
        ensures
            copy@ == self@,
    {
        SigningPackage { bytes: self.bytes.clone() }
    }
}

impl Clone for SignatureShare {
    fn clone(&self) -> (copy: Self)
        ensures
            copy@ == self@,
    {
        SignatureShare { bytes: self.bytes.clone() }
    }
}

impl KeyPackage {
    /// The verifying key of the group that this share belongs to; `None`
    /// where the bytes are no key package.
    pub fn verifying_key(&self) -> (key: Option<[u8; 32]>)
        ensures
            match key {
                Some(k) => key_package_verifying_key(self@) == Some(k@),
                None => key_package_verifying_key(self@) is None,
            },
    {
        share_verifying_key(self)
    }
}

impl KeyPackage {
    /// The number of signers that a signature of the group takes; `None`
    /// where the bytes are no key package.
    pub fn min_signers(&self) -> (threshold: Option<u16>)
        ensures
            threshold == key_package_min_signers(self@),
    {
        share_min_signers(self)
    }

    /// The identifier of the participant that holds this share; `None` where
    /// the bytes are no key package or the identifier is none of 0 to 65535.
    pub fn identifier(&self) -> (id: Option<u16>)
        ensures
            match id {
                Some(i) => key_package_identifier(self@) == Some(identifier_bytes(i)),
                None => forall|i: u16|
                    key_package_identifier(self@) != Some(#[trigger] identifier_bytes(i)),
            },
    {
        let bytes = match share_identifier(self) {
            Some(bytes) => bytes,
            None => {
                return None;
            },
        };
        let mut j: usize = 2;
        while j < 32
            invariant
                2 <= j <= 32,
                key_package_identifier(self@) == Some(bytes@),
                forall|k: int| 2 <= k < j ==> bytes@[k] == 0,
            decreases 32 - j,
        {
            if bytes[j] != 0 {
                assert forall|i: u16| bytes@ != #[trigger] identifier_bytes(i) by {
                    assert(identifier_bytes(i)[j as int] == 0);
                }
                return None;
            }
            j += 1;
        }
        let low: u16 = bytes[0] as u16;
        let high: u16 = bytes[1] as u16;
        let id: u16 = high * 256 + low;
        assert(bytes@ =~= identifier_bytes(id));
        Some(id)
    }
}

impl SigningNonces {
    /// The commitments to these nonces, which the nonces carry with them;
    /// `None` where the bytes are no nonces.
    pub fn commitments(&self) -> (commitments: Option<SigningCommitments>)
        ensures
            match commitments {
                Some(c) => nonce_commitments(self@) == Some(c@),
                None => nonce_commitments(self@) is None,
            },
    {
        carried_commitments(self)
    }
}

impl PublicKeyPackage {
    /// The number of participants whose verifying share the package holds;
    /// `None` where the bytes are no public key package.
    pub fn participants(&self) -> (count: Option<usize>)
        ensures
            count == verifying_share_count(self@),
    {
        public_share_count(self)
    }

    /// The verifying key of the group; `None` where the bytes are no public
    /// key package.
    pub fn verifying_key(&self) -> (key: Option<[u8; 32]>)
        ensures
            match key {
                Some(k) => group_verifying_key(self@) == Some(k@),
                None => group_verifying_key(self@) is None,
            },
    {
        public_verifying_key(self)
    }
}

impl SigningPackage {
    /// The signing package of a session: the commitments of its signers by
    /// identifier, and the message to sign. `None` where an identifier is
    /// zero or a commitment does not decode.
    pub fn new(commitments: &BTreeMap<u16, SigningCommitments>, message: &[u8]) -> (package:
        Option<Self>)
        ensures
            match package {
                Some(p) => signing_package_encoding(commitment_bytes(commitments@), message@)
                    == Some(p@),
                None => signing_package_encoding(commitment_bytes(commitments@), message@)
                    is None,
            },
    {
        build_signing_package(commitments, message)
    }
}

/// `n` zero bytes.
pub open spec fn zeros(n: nat) -> Seq<u8> {
    Seq::new(n, |i: int| 0u8)
}

/// The identifier `id` as FROST encodes it: the scalar `id` in 32 bytes, the
/// least significant first.
pub open spec fn identifier_bytes(id: u16) -> Seq<u8> {
    seq![(id % 256) as u8, (id / 256) as u8] + zeros(30)
}

/// The encodings that a map from identifiers holds.
pub open spec fn commitment_bytes(commitments: Map<u16, SigningCommitments>) -> Map<u16, Seq<u8>> {
    commitments.map_values(|c: SigningCommitments| c@)
}

/// The encodings that a map from identifiers holds.
pub open spec fn share_bytes(shares: Map<u16, SignatureShare>) -> Map<u16, Seq<u8>> {
    shares.map_values(|s: SignatureShare| s@)
}

/// The group verifying key, 32 bytes, that an encoded public key package
/// holds; `None` where the bytes are no such package.
pub uninterp spec fn group_verifying_key(public_key_package: Seq<u8>) -> Option<Seq<u8>>;

/// The group verifying key, 32 bytes, that an encoded key package holds;
/// `None` where the bytes are no such package.
pub uninterp spec fn key_package_verifying_key(key_package: Seq<u8>) -> Option<Seq<u8>>;

/// The number of verifying shares, one per participant, that an encoded
/// public key package holds; `None` where the bytes are no such package.
pub uninterp spec fn verifying_share_count(public_key_package: Seq<u8>) -> Option<usize>;

/// The threshold that an encoded key package holds: the number of signers
/// that a signature takes; `None` where the bytes are no such package.
pub uninterp spec fn key_package_min_signers(key_package: Seq<u8>) -> Option<u16>;

/// The encoded identifier, 32 bytes, that an encoded key package holds;
/// `None` where the bytes are no such package.
pub uninterp spec fn key_package_identifier(key_package: Seq<u8>) -> Option<Seq<u8>>;

/// The encoded commitments that encoded nonces carry with them: the
/// commitments to exactly these nonces; `None` where the bytes are no nonces.
pub uninterp spec fn nonce_commitments(nonces: Seq<u8>) -> Option<Seq<u8>>;

/// The encoded signing package that FROST makes of these commitments and this
/// message; `None` where an identifier is zero or a commitment does not
/// decode.
pub uninterp spec fn signing_package_encoding(
    commitments: Map<u16, Seq<u8>>,
    message: Seq<u8>,
) -> Option<Seq<u8>>;

/// The signature share that FROST's second round computes from an encoded
/// signing package, encoded nonces and an encoded key package; `None` where
/// it refuses.
pub uninterp spec fn signature_share_for(
    signing_package: Seq<u8>,
    nonces: Seq<u8>,
    key_package: Seq<u8>,
) -> Option<Seq<u8>>;

/// The 64-byte signature that FROST aggregates from the shares of a session;
/// `None` where it refuses.
pub uninterp spec fn aggregate_signature(
    signing_package: Seq<u8>,
    shares: Map<u16, Seq<u8>>,
    public_key_package: Seq<u8>,
) -> Option<Seq<u8>>;

/// Whether FROST's Schnorr verification accepts `signature` on `message`
/// under `verifying_key`.
pub uninterp spec fn signature_accepted(
    verifying_key: Seq<u8>,
    message: Seq<u8>,
    signature: Seq<u8>,
) -> bool;

/// Whether Ed25519 verification, as `ed25519-dalek` does it, accepts
/// `signature` on `message` under `public_key`; `None` where `public_key` is
/// not the encoding of a point of the curve.
pub uninterp spec fn ed25519_verdict(
    public_key: Seq<u8>,
    message: Seq<u8>,
    signature: Seq<u8>,
) -> Option<bool>;

/// The SHA-256 digest of `data`.
pub uninterp spec fn sha256_digest(data: Seq<u8>) -> Seq<u8>;

/// Calls `frost_ed25519::keys::generate_with_dealer` with the default
/// identifiers 1 to `max_signers` and turns each secret share into a key
/// package with `KeyPackage::try_from`.
///
/// The dealer draws the key at random, so nothing is said of the secrets, and
/// no success is promised, not even for parameters that pass the validation:
/// a share may come out as zero, and its verifying share is the identity,
/// which has no encoding. What the source shows of every success: the parameters passed its validation;
/// there is one key package per identifier, in the order of the identifiers,
/// so that the package at position `i` has the identifier `i + 1`; each
/// carries the threshold asked for and the verifying key of the public key
/// package; and the public key package holds one verifying share per
/// participant.
#[verifier::external_body]
pub(crate) fn dealer_keygen(max_signers: u16, min_signers: u16) -> (generated: Option<
    (Vec<KeyPackage>, PublicKeyPackage),
>)
    ensures
        generated matches Some((key_packages, public_key_package)) ==> {
            &&& 2 <= min_signers <= max_signers
            &&& key_packages@.len() == max_signers
            &&& group_verifying_key(public_key_package@) is Some
            &&& verifying_share_count(public_key_package@) == Some(max_signers as usize)
            &&& forall|i: int|
                0 <= i < key_packages@.len() ==> {
                    &&& key_package_verifying_key(#[trigger] key_packages@[i]@)
                        == group_verifying_key(public_key_package@)
                    &&& key_package_min_signers(key_packages@[i]@) == Some(min_signers)
                    &&& key_package_identifier(key_packages@[i]@) == Some(
                        identifier_bytes((i + 1) as u16),
                    )
                }
        },
{
    let (shares, public) = frost_ed25519::keys::generate_with_dealer(
        max_signers,
        min_signers,
        frost_ed25519::keys::IdentifierList::Default,
        rand::thread_rng(),
    ).ok()?;
    let key_packages = shares.into_values().map(
        |s| Some(KeyPackage { bytes: frost_ed25519::keys::KeyPackage::try_from(s).ok()?.serialize().ok()? }),
    ).collect::<Option<Vec<_>>>()?;
    Some((key_packages, PublicKeyPackage { bytes: public.serialize().ok()? }))
}

/// Calls `frost_ed25519::round1::commit` on the signing share of the key
/// package. `None` where the key package does not decode, or where what was
/// drawn has no encoding.
///
/// The nonces are random: nothing is said of their value, and no success is
/// promised, not even for a key package that decodes: a nonce may come out as
/// zero, and the commitment to it is the identity, which has no encoding.
/// What the source shows of every success: the key package decoded, and the
/// commitments that come back are those that the nonces carry with them.
#[verifier::external_body]
pub(crate) fn commit(key_package: &KeyPackage) -> (drawn: Option<
    (SigningNonces, SigningCommitments),
>)
    ensures
        drawn matches Some((nonces, commitments)) ==> {
            &&& nonce_commitments(nonces@) == Some(commitments@)
            &&& key_package_verifying_key(key_package@) is Some
        },
{
    let key = frost_ed25519::keys::KeyPackage::deserialize(&key_package.bytes).ok()?;
    let (nonces, commitments) = frost_ed25519::round1::commit(
        key.signing_share(),
        &mut rand::thread_rng(),
    );
    Some(
        (
            SigningNonces { bytes: nonces.serialize().ok()? },
            SigningCommitments { bytes: commitments.serialize().ok()? },
        ),
    )
}

/// Calls `frost_ed25519::round1::SigningNonces::commitments` on the decoded
/// nonces and encodes the commitments.
#[verifier::external_body]
fn carried_commitments(nonces: &SigningNonces) -> (commitments: Option<SigningCommitments>)
    ensures
        match commitments {
            Some(c) => nonce_commitments(nonces@) == Some(c@),
            None => nonce_commitments(nonces@) is None,
        },
{
    let nonces = frost_ed25519::round1::SigningNonces::deserialize(&nonces.bytes).ok()?;
    Some(SigningCommitments { bytes: nonces.commitments().serialize().ok()? })
}

/// Calls `frost_ed25519::SigningPackage::new` on the decoded commitments and
/// encodes what it returns.
#[verifier::external_body]
fn build_signing_package(
    commitments: &BTreeMap<u16, SigningCommitments>,
    message: &[u8],
) -> (package: Option<SigningPackage>)
    ensures
        match package {
            Some(p) => signing_package_encoding(commitment_bytes(commitments@), message@) == Some(
                p@,
            ),
            None => signing_package_encoding(commitment_bytes(commitments@), message@) is None,
        },
{
    let decoded = commitments.iter().map(
        |(id, c)|
            Some(
                (
                    frost_ed25519::Identifier::try_from(*id).ok()?,
                    frost_ed25519::round1::SigningCommitments::deserialize(&c.bytes).ok()?,
                ),
            ),
    ).collect::<Option<BTreeMap<_, _>>>()?;
    let bytes = frost_ed25519::SigningPackage::new(decoded, message).serialize().ok()?;
    Some(SigningPackage { bytes })
}

/// Calls `frost_ed25519::round2::sign` on the decoded arguments.
#[verifier::external_body]
pub(crate) fn sign(
    signing_package: &SigningPackage,
    nonces: &SigningNonces,
    key_package: &KeyPackage,
) -> (share: Option<SignatureShare>)
    ensures
        match share {
            Some(s) => signature_share_for(signing_package@, nonces@, key_package@) == Some(s@),
            None => signature_share_for(signing_package@, nonces@, key_package@) is None,
        },
{
    let package = frost_ed25519::SigningPackage::deserialize(&signing_package.bytes).ok()?;
    let nonces = frost_ed25519::round1::SigningNonces::deserialize(&nonces.bytes).ok()?;
    let key = frost_ed25519::keys::KeyPackage::deserialize(&key_package.bytes).ok()?;
    let share = frost_ed25519::round2::sign(&package, &nonces, &key).ok()?;
    Some(SignatureShare { bytes: share.serialize() })
}

/// Calls `frost_ed25519::aggregate` on the decoded arguments.
///
/// Before it returns a signature, `aggregate` verifies it on the package's
/// message under the group verifying key and returns an error where that
/// fails: a signature that comes back is one that verification accepts.
#[verifier::external_body]
pub(crate) fn aggregate(
    signing_package: &SigningPackage,
    shares: &BTreeMap<u16, SignatureShare>,
    public_key_package: &PublicKeyPackage,
) -> (signature: Option<[u8; 64]>)
    ensures
        match signature {
            Some(s) => aggregate_signature(
                signing_package@,
                share_bytes(shares@),
                public_key_package@,
            ) == Some(s@),
            None => aggregate_signature(
                signing_package@,
                share_bytes(shares@),
                public_key_package@,
            ) is None,
        },
        signature matches Some(s) ==> {
            &&& group_verifying_key(public_key_package@) is Some
            &&& forall|commitments: Map<u16, Seq<u8>>, message: Seq<u8>|
                #[trigger] signing_package_encoding(commitments, message) == Some(signing_package@)
                    ==> signature_accepted(
                    group_verifying_key(public_key_package@).unwrap(),
                    message,
                    s@,
                )
        },
{
    let package = frost_ed25519::SigningPackage::deserialize(&signing_package.bytes).ok()?;
    let decoded = shares.iter().map(
        |(id, s)|
            Some(
                (
                    frost_ed25519::Identifier::try_from(*id).ok()?,
                    frost_ed25519::round2::SignatureShare::deserialize(&s.bytes).ok()?,
                ),
            ),
    ).collect::<Option<BTreeMap<_, _>>>()?;
    let public = frost_ed25519::keys::PublicKeyPackage::deserialize(&public_key_package.bytes).ok()?;
    let signature = frost_ed25519::aggregate(&package, &decoded, &public).ok()?;
    signature.serialize().ok()?.try_into().ok()
}

/// Calls `frost_ed25519::keys::PublicKeyPackage::verifying_key` on the
/// decoded package and encodes the key.
#[verifier::external_body]
fn public_verifying_key(public_key_package: &PublicKeyPackage) -> (key: Option<
    [u8; 32],
>)
    ensures
        match key {
            Some(k) => group_verifying_key(public_key_package@) == Some(k@),
            None => group_verifying_key(public_key_package@) is None,
        },
{
    let public = frost_ed25519::keys::PublicKeyPackage::deserialize(&public_key_package.bytes).ok()?;
    public.verifying_key().serialize().ok()?.try_into().ok()
}

/// Calls `frost_ed25519::keys::KeyPackage::verifying_key` on the decoded
/// package and encodes the key.
#[verifier::external_body]
fn share_verifying_key(key_package: &KeyPackage) -> (key: Option<[u8; 32]>)
    ensures
        match key {
            Some(k) => key_package_verifying_key(key_package@) == Some(k@),
            None => key_package_verifying_key(key_package@) is None,
        },
{
    let key = frost_ed25519::keys::KeyPackage::deserialize(&key_package.bytes).ok()?;
    key.verifying_key().serialize().ok()?.try_into().ok()
}

/// Calls `frost_ed25519::keys::PublicKeyPackage::verifying_shares` on the
/// decoded package and takes the length of the map.
#[verifier::external_body]
fn public_share_count(public_key_package: &PublicKeyPackage) -> (count: Option<usize>)
    ensures
        count == verifying_share_count(public_key_package@),
{
    let public = frost_ed25519::keys::PublicKeyPackage::deserialize(&public_key_package.bytes).ok()?;
    Some(public.verifying_shares().len())
}

/// Calls `frost_ed25519::keys::KeyPackage::min_signers` on the decoded
/// package.
#[verifier::external_body]
fn share_min_signers(key_package: &KeyPackage) -> (threshold: Option<u16>)
    ensures
        threshold == key_package_min_signers(key_package@),
{
    let key = frost_ed25519::keys::KeyPackage::deserialize(&key_package.bytes).ok()?;
    Some(*key.min_signers())
}

/// Calls `frost_ed25519::keys::KeyPackage::identifier` on the decoded package
/// and encodes the identifier.
#[verifier::external_body]
fn share_identifier(key_package: &KeyPackage) -> (id: Option<[u8; 32]>)
    ensures
        match id {
            Some(bytes) => key_package_identifier(key_package@) == Some(bytes@),
            None => key_package_identifier(key_package@) is None,
        },
{
    let key = frost_ed25519::keys::KeyPackage::deserialize(&key_package.bytes).ok()?;
    key.identifier().serialize().try_into().ok()
}

/// Calls `frost_ed25519::VerifyingKey::verify` on the decoded key and
/// signature. A key or a signature that does not decode is not accepted.
#[verifier::external_body]
pub(crate) fn verify(verifying_key: &[u8; 32], message: &[u8], signature: &[u8; 64]) -> (accepted:
    bool)
    ensures
        accepted == signature_accepted(verifying_key@, message@, signature@),
{
    match (
        frost_ed25519::VerifyingKey::deserialize(verifying_key),
        frost_ed25519::Signature::deserialize(signature),
    ) {
        (Ok(key), Ok(signature)) => key.verify(message, &signature).is_ok(),
        _ => false,
    }
}

/// Calls `ed25519_dalek::VerifyingKey::from_bytes` and, with the key it gives,
/// `ed25519_dalek::Verifier::verify`. `None` where the bytes are no key.
#[verifier::external_body]
pub(crate) fn ed25519_verify(public_key: &[u8; 32], message: &[u8], signature: &[u8; 64]) -> (verdict:
    Option<bool>)
    ensures
        verdict == ed25519_verdict(public_key@, message@, signature@),
{
    let key = ed25519_dalek::VerifyingKey::from_bytes(public_key).ok()?;
    let signature = ed25519_dalek::Signature::from_bytes(signature);
    Some(ed25519_dalek::Verifier::verify(&key, message, &signature).is_ok())
}

/// Calls `sha2::Sha256::digest`.
#[verifier::external_body]
pub(crate) fn sha256(data: &[u8]) -> (digest: [u8; 32])
    ensures
        digest@ == sha256_digest(data@),
{
    sha2::Sha256::digest(data).into()
}

} // verus!
