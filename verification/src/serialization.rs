//! The wire messages between coordinator and signer, and their encoding.
//!
//! A message is encoded as its fields in order, each at its fixed width, with
//! nothing between them: a `u8` is one byte, an array of `N` bytes is those
//! `N` bytes. The length of an encoding therefore depends on the type alone.

use crate::error::ThresholdError;
use crate::primitives::{ed25519_verdict, ed25519_verify, signature_accepted, verify};
use vstd::prelude::*;

verus! {

/// What the coordinator asks of a signer.
#[derive(Debug, PartialEq, Eq)]
pub struct SignerMessage {
    pub signer_index: u8,
    pub message_hash: [u8; 32],
    pub nonce_commitment: [u8; 32],
}

/// What a signer answers.
#[derive(Debug, PartialEq, Eq)]
pub struct SignerResponse {
    pub signer_index: u8,
    pub signature_share: [u8; 32],
    pub nonce_share: [u8; 32],
}

/// The signature of the group, `R` then `s`, with the group's public key.
/// Anyone can verify it with no further state of the protocol.
#[derive(Debug, PartialEq, Eq)]
pub struct CombinedSignature {
    pub signature: [u8; 64],
    pub public_key: [u8; 32],
}

impl Clone for SignerMessage {
    fn clone(&self) -> (copy: Self)
        ensures
            copy == *self,
    {
        SignerMessage {
            signer_index: self.signer_index,
            message_hash: self.message_hash,
            nonce_commitment: self.nonce_commitment,
        }
    }
}

impl Clone for SignerResponse {
    fn clone(&self) -> (copy: Self)
        ensures
            copy == *self,
    {
        SignerResponse {
            signer_index: self.signer_index,
            signature_share: self.signature_share,
            nonce_share: self.nonce_share,
        }
    }
}

impl Clone for CombinedSignature {
    fn clone(&self) -> (copy: Self)
        ensures
            copy == *self,
    {
        CombinedSignature { signature: self.signature, public_key: self.public_key }
    }
}

impl CombinedSignature {
    /// Whether the signature is one on `message` under its own public key:
    /// whether `s * G == R + challenge * public_key`, the challenge being the
    /// hash of `R`, the public key and the message. This is the check that
    /// aggregation itself applies before it hands a signature out.
    pub fn verify(&self, message: &[u8]) -> (accepted: bool)
        ensures
            accepted == signature_accepted(self.public_key@, message@, self.signature@),
    {
        verify(&self.public_key, message, &self.signature)
    }

    /// The verdict of a plain Ed25519 verifier, which knows nothing of
    /// thresholds, on the signature and `message`; `None` where the public
    /// key is no Ed25519 key.
    pub fn verify_ed25519(&self, message: &[u8]) -> (verdict: Option<bool>)
        ensures
            verdict == ed25519_verdict(self.public_key@, message@, self.signature@),
    {
        ed25519_verify(&self.public_key, message, &self.signature)
    }
}

/// A value with a fixed-width encoding.
pub trait WireMessage: Sized {
    /// The number of bytes that every value of the type is encoded in.
    spec fn wire_len() -> nat;

    /// The encoding of a value.
    spec fn wire_bytes(&self) -> Seq<u8>;

    /// Every encoding has the width of its type.
    proof fn lemma_fixed_width(&self)
        ensures
            self.wire_bytes().len() == Self::wire_len(),
    ;

    /// Two values with the same encoding are the same value.
    proof fn lemma_wire_bytes_distinguish(a: &Self, b: &Self)
        requires
            a.wire_bytes() == b.wire_bytes(),
        ensures
            a == b,
    ;

    /// Writes the encoding.
    fn encode(&self) -> (bytes: Vec<u8>)
        ensures
            bytes@ == self.wire_bytes(),
    ;

    /// Reads a value back: the one that `bytes` encodes, or `None` where
    /// `bytes` has not the width of the type.
    fn decode(bytes: &[u8]) -> (message: Option<Self>)
        ensures
            message is Some <==> bytes@.len() == Self::wire_len(),
            message matches Some(m) ==> m.wire_bytes() == bytes@,
    ;
}

/// Whether `message` is what decoding `bytes` gives: the value whose encoding
/// `bytes` is, or `None` where `bytes` has not the width of the type.
pub open spec fn decodes_to<T: WireMessage>(bytes: Seq<u8>, message: Option<T>) -> bool {
    match message {
        Some(m) => m.wire_bytes() == bytes,
        None => bytes.len() != T::wire_len(),
    }
}

/// Appends `bytes` to `out`.
fn append(out: &mut Vec<u8>, bytes: &[u8])
    ensures
        final(out)@ == old(out)@ + bytes@,
{
    let mut i: usize = 0;
    while i < bytes.len()
        invariant
            i <= bytes@.len(),
            out@ == old(out)@ + bytes@.subrange(0, i as int),
        decreases bytes@.len() - i,
    {
        out.push(bytes[i]);
        i += 1;
    }
}

/// The 32 bytes of `bytes` that start at `start`.
fn array32_at(bytes: &[u8], start: usize) -> (field: [u8; 32])
    requires
        start + 32 <= bytes@.len(),
    ensures
        field@ == bytes@.subrange(start as int, start + 32),
{
    let len = bytes.len();
    let mut field = [0u8; 32];
    let mut i: usize = 0;
    while i < 32
        invariant
            i <= 32,
            start + 32 <= len == bytes@.len(),
            forall|j: int| 0 <= j < i ==> field@[j] == bytes@[start + j],
        decreases 32 - i,
    {
        field[i] = bytes[start + i];
        i += 1;
    }
    field
}

/// The 64 bytes of `bytes` that start at `start`.
fn array64_at(bytes: &[u8], start: usize) -> (field: [u8; 64])
    requires
        start + 64 <= bytes@.len(),
    ensures
        field@ == bytes@.subrange(start as int, start + 64),
{
    let len = bytes.len();
    let mut field = [0u8; 64];
    let mut i: usize = 0;
    while i < 64
        invariant
            i <= 64,
            start + 64 <= len == bytes@.len(),
            forall|j: int| 0 <= j < i ==> field@[j] == bytes@[start + j],
        decreases 64 - i,
    {
        field[i] = bytes[start + i];
        i += 1;
    }
    field
}

impl WireMessage for SignerMessage {
    open spec fn wire_len() -> nat {
        65
    }

    proof fn lemma_fixed_width(&self) {
    }

    open spec fn wire_bytes(&self) -> Seq<u8> {
        seq![self.signer_index] + self.message_hash@ + self.nonce_commitment@
    }

    proof fn lemma_wire_bytes_distinguish(a: &Self, b: &Self) {
        let bytes = a.wire_bytes();
        assert(a.signer_index == bytes[0] && b.signer_index == bytes[0]);
        assert(a.message_hash@ == bytes.subrange(1, 33));
        assert(b.message_hash@ == bytes.subrange(1, 33));
        assert(a.nonce_commitment@ == bytes.subrange(33, 65));
        assert(b.nonce_commitment@ == bytes.subrange(33, 65));
        assert(a.message_hash =~= b.message_hash);
        assert(a.nonce_commitment =~= b.nonce_commitment);
    }

    fn encode(&self) -> (bytes: Vec<u8>) {
        let mut bytes: Vec<u8> = Vec::new();
        bytes.push(self.signer_index);
        append(&mut bytes, &self.message_hash);
        append(&mut bytes, &self.nonce_commitment);
        bytes
    }

    fn decode(bytes: &[u8]) -> (message: Option<Self>) {
        if bytes.len() != 65 {
            return None;
        }
        let message = SignerMessage {
            signer_index: bytes[0],
            message_hash: array32_at(bytes, 1),
            nonce_commitment: array32_at(bytes, 33),
        };
        Some(message)
    }
}

impl WireMessage for SignerResponse {
    open spec fn wire_len() -> nat {
        65
    }

    proof fn lemma_fixed_width(&self) {
    }

    open spec fn wire_bytes(&self) -> Seq<u8> {
        seq![self.signer_index] + self.signature_share@ + self.nonce_share@
    }

    proof fn lemma_wire_bytes_distinguish(a: &Self, b: &Self) {
        let bytes = a.wire_bytes();
        assert(a.signer_index == bytes[0] && b.signer_index == bytes[0]);
        assert(a.signature_share@ == bytes.subrange(1, 33));
        assert(b.signature_share@ == bytes.subrange(1, 33));
        assert(a.nonce_share@ == bytes.subrange(33, 65));
        assert(b.nonce_share@ == bytes.subrange(33, 65));
        assert(a.signature_share =~= b.signature_share);
        assert(a.nonce_share =~= b.nonce_share);
    }

    fn encode(&self) -> (bytes: Vec<u8>) {
        let mut bytes: Vec<u8> = Vec::new();
        bytes.push(self.signer_index);
        append(&mut bytes, &self.signature_share);
        append(&mut bytes, &self.nonce_share);
        bytes
    }

    fn decode(bytes: &[u8]) -> (message: Option<Self>) {
        if bytes.len() != 65 {
            return None;
        }
        let message = SignerResponse {
            signer_index: bytes[0],
            signature_share: array32_at(bytes, 1),
            nonce_share: array32_at(bytes, 33),
        };
        Some(message)
    }
}

impl WireMessage for CombinedSignature {
    open spec fn wire_len() -> nat {
        96
    }

    proof fn lemma_fixed_width(&self) {
    }

    open spec fn wire_bytes(&self) -> Seq<u8> {
        self.signature@ + self.public_key@
    }

    proof fn lemma_wire_bytes_distinguish(a: &Self, b: &Self) {
        let bytes = a.wire_bytes();
        assert(a.signature@ == bytes.subrange(0, 64));
        assert(b.signature@ == bytes.subrange(0, 64));
        assert(a.public_key@ == bytes.subrange(64, 96));
        assert(b.public_key@ == bytes.subrange(64, 96));
        assert(a.signature =~= b.signature);
        assert(a.public_key =~= b.public_key);
    }

    fn encode(&self) -> (bytes: Vec<u8>) {
        let mut bytes: Vec<u8> = Vec::new();
        append(&mut bytes, &self.signature);
        append(&mut bytes, &self.public_key);
        bytes
    }

    fn decode(bytes: &[u8]) -> (message: Option<Self>) {
        if bytes.len() != 96 {
            return None;
        }
        let message = CombinedSignature {
            signature: array64_at(bytes, 0),
            public_key: array32_at(bytes, 64),
        };
        Some(message)
    }
}

/// The encoding of `data`.
pub fn serialize<T: WireMessage>(data: &T) -> (bytes: Vec<u8>)
    ensures
        bytes@ == data.wire_bytes(),
{
    data.encode()
}

/// The value that `bytes` encodes. Fails with `DeserializationFailure` where
/// `bytes` has not the width of `T`.
pub fn deserialize<T: WireMessage>(bytes: &[u8]) -> (data: Result<T, ThresholdError>)
    ensures
        data is Ok <==> bytes@.len() == T::wire_len(),
        match data {
            Ok(value) => value.wire_bytes() == bytes@,
            Err(e) => e == ThresholdError::DeserializationFailure,
        },
{
    match T::decode(bytes) {
        Some(value) => Ok(value),
        None => Err(ThresholdError::DeserializationFailure),
    }
}

/// Decoding the encoding of a value gives that value back.
pub proof fn lemma_round_trip<T: WireMessage>(value: T, decoded: Option<T>)
    requires
        decodes_to(value.wire_bytes(), decoded),
    ensures
        decoded == Some(value),
{
    match decoded {
        Some(other) => {
            T::lemma_wire_bytes_distinguish(&other, &value);
        },
        None => {
            value.lemma_fixed_width();
        },
    }
}

/// The encoding is a function of the value: the same value gives the same
/// bytes, and two different values give different bytes.
pub proof fn lemma_encoding_is_canonical<T: WireMessage>(a: T, b: T)
    ensures
        a == b ==> a.wire_bytes() == b.wire_bytes(),
        a != b ==> a.wire_bytes() != b.wire_bytes(),
{
    if a.wire_bytes() == b.wire_bytes() {
        T::lemma_wire_bytes_distinguish(&a, &b);
    }
}

} // verus!
