//! Key generation by a trusted dealer.

use crate::error::ThresholdError;
use crate::primitives::{
    dealer_keygen, group_verifying_key, identifier_bytes, key_package_identifier,
    key_package_min_signers, key_package_verifying_key, verifying_share_count, KeyPackage,
    PublicKeyPackage,
};
use vstd::prelude::*;

verus! {

/// Whether the key packages are the shares of one group of `max_signers`
/// participants under the threshold `min_signers`: there is one per
/// participant, the one at position `i` has the identifier `i + 1`, and each
/// carries the threshold and the verifying key of the group, which is that of
/// the public key package; the public key package holds one verifying share
/// per participant.
pub open spec fn shares_of_one_group(
    key_packages: Seq<KeyPackage>,
    public_key_package: Seq<u8>,
    max_signers: u16,
    min_signers: u16,
) -> bool {
    &&& key_packages.len() == max_signers
    &&& group_verifying_key(public_key_package) is Some
    &&& verifying_share_count(public_key_package) == Some(max_signers as usize)
    &&& forall|i: int|
        0 <= i < key_packages.len() ==> {
            &&& key_package_verifying_key(#[trigger] key_packages[i]@) == group_verifying_key(
                public_key_package,
            )
            &&& key_package_min_signers(key_packages[i]@) == Some(min_signers)
            &&& key_package_identifier(key_packages[i]@) == Some(
                identifier_bytes((i + 1) as u16),
            )
        }
}

/// Splits a fresh group key among `max_signers` participants so that
/// `min_signers` of them can sign: the key package of participant `i` stands
/// at position `i - 1`.
///
/// Fails with `InvalidThreshold` where `min_signers` is below 2 or above
/// `max_signers`. For every other input the dealer of the cryptographic
/// library is asked for `max_signers` shares under the threshold
/// `min_signers`: what it gives is returned as it is, and where it gives
/// nothing the result is `KeyGenerationFailure`.
pub fn generate_frost_keys(max_signers: u16, min_signers: u16) -> (generated: Result<
    (Vec<KeyPackage>, PublicKeyPackage),
    ThresholdError,
>)
    ensures
        min_signers < 2 || min_signers > max_signers <==> generated is Err && generated->Err_0
            == ThresholdError::InvalidThreshold,
        generated matches Err(e) ==> e == ThresholdError::InvalidThreshold || e
            == ThresholdError::KeyGenerationFailure,
        generated matches Ok((key_packages, public_key_package)) ==> shares_of_one_group(
            key_packages@,
            public_key_package@,
            max_signers,
            min_signers,
        ),
{
    if min_signers < 2 || min_signers > max_signers {
        return Err(ThresholdError::InvalidThreshold);
    }
    match dealer_keygen(max_signers, min_signers) {
        Some(generated) => Ok(generated),
        None => Err(ThresholdError::KeyGenerationFailure),
    }
}

} // verus!
