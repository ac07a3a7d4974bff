use sha2::{Digest, Sha256};
use std::collections::BTreeMap;
use threshold_signing_lib::{
    deserialize, generate_frost_keys, serialize, KeyPackage, SignerMessage, SignerResponse,
    SigningCommitments, SigningNonces, SigningPackage, ThresholdCoordinator, ThresholdError,
    ThresholdSigner,
};

fn signers(threshold: u16, total: u16) -> Vec<ThresholdSigner> {
    let (key_packages, _) = generate_frost_keys(total, threshold).unwrap();
    key_packages
        .into_iter()
        .enumerate()
        .map(|(i, kp)| ThresholdSigner::new((i + 1) as u16, kp))
        .collect()
}

fn first_round(signers: &mut Vec<ThresholdSigner>) -> BTreeMap<u16, SigningCommitments> {
    let mut commitments = BTreeMap::new();
    for signer in signers.iter_mut() {
        commitments.insert(signer.index, signer.round1_generate_nonces().unwrap());
    }
    commitments
}

#[test]
fn a_new_signer_is_idle() {
    let (mut key_packages, _) = generate_frost_keys(2, 2).unwrap();
    let key_package = key_packages.remove(0);
    let bytes = key_package.bytes.clone();
    let signer = ThresholdSigner::new(9, key_package);
    assert_eq!(signer.index, 9);
    assert_eq!(signer.key_package.bytes, bytes);
    assert!(signer.signing_nonces.is_none());
    assert!(signer.signing_commitments.is_none());
}

#[test]
fn the_first_round_fills_both_slots() {
    let mut signers = signers(2, 2);
    let published = signers[0].round1_generate_nonces().unwrap();
    assert!(signers[0].signing_nonces.is_some());
    assert_eq!(signers[0].signing_commitments, Some(published.clone()));
    assert!(!published.bytes.is_empty());
    assert_ne!(published.bytes, signers[0].key_package.bytes);
    assert_ne!(published.bytes, signers[0].signing_nonces.as_ref().unwrap().bytes);
}

#[test]
fn the_first_round_overwrites_unused_nonces() {
    let mut signers = signers(2, 2);
    let first = signers[0].round1_generate_nonces().unwrap();
    let first_nonces = signers[0].signing_nonces.as_ref().unwrap().bytes.clone();
    let second = signers[0].round1_generate_nonces().unwrap();
    assert_ne!(first, second);
    assert_ne!(first_nonces, signers[0].signing_nonces.as_ref().unwrap().bytes);
    assert_eq!(signers[0].signing_commitments, Some(second));
}

#[test]
fn the_first_round_fails_on_a_broken_key_share() {
    let mut signer = ThresholdSigner::new(1, KeyPackage { bytes: vec![1, 2, 3, 4] });
    assert_eq!(signer.round1_generate_nonces(), Err(ThresholdError::SigningFailure));
    assert!(signer.signing_nonces.is_none());
    assert!(signer.signing_commitments.is_none());
}

#[test]
fn a_failed_first_round_discards_what_the_slots_held() {
    let mut signers = signers(2, 2);
    signers[0].round1_generate_nonces().unwrap();
    signers[0].key_package.bytes.truncate(5);
    assert_eq!(signers[0].round1_generate_nonces(), Err(ThresholdError::SigningFailure));
    assert!(signers[0].signing_nonces.is_none());
    assert!(signers[0].signing_commitments.is_none());
}

#[test]
fn nonces_sign_once() {
    let mut signers = signers(2, 3);
    signers.truncate(2);
    let commitments = first_round(&mut signers);
    let package = SigningPackage::new(&commitments, b"message").unwrap();

    let share = signers[0].round2_sign(b"message", &package).unwrap();
    assert_eq!(share.bytes.len(), 32);
    assert!(signers[0].signing_nonces.is_none());
    assert!(signers[0].signing_commitments.is_some());

    assert_eq!(
        signers[0].round2_sign(b"message", &package),
        Err(ThresholdError::NoNoncesAvailable)
    );
    let other = SigningPackage::new(&commitments, b"another message").unwrap();
    assert_eq!(
        signers[0].round2_sign(b"another message", &other),
        Err(ThresholdError::NoNoncesAvailable)
    );
}

#[test]
fn an_idle_signer_has_no_nonces_to_sign_with() {
    let mut signers = signers(2, 2);
    let package = SigningPackage { bytes: Vec::new() };
    assert_eq!(
        signers[0].round2_sign(b"message", &package),
        Err(ThresholdError::NoNoncesAvailable)
    );
    assert!(signers[0].signing_nonces.is_none());
}

#[test]
fn the_second_round_spends_the_nonces_even_where_it_fails() {
    let mut signers = signers(2, 2);
    signers[0].round1_generate_nonces().unwrap();
    let package = SigningPackage { bytes: vec![9, 9, 9] };
    assert_eq!(signers[0].round2_sign(b"message", &package), Err(ThresholdError::SigningFailure));
    assert!(signers[0].signing_nonces.is_none());
    assert_eq!(
        signers[0].round2_sign(b"message", &package),
        Err(ThresholdError::NoNoncesAvailable)
    );
}

#[test]
fn a_package_without_the_signer_is_refused() {
    let mut signers = signers(2, 3);
    let mut commitments = first_round(&mut signers);
    commitments.remove(&1);
    let package = SigningPackage::new(&commitments, b"message").unwrap();
    assert_eq!(signers[0].round2_sign(b"message", &package), Err(ThresholdError::SigningFailure));
    assert!(signers[1].round2_sign(b"message", &package).is_ok());
}

#[test]
fn a_package_with_stale_commitments_is_refused() {
    let mut signers = signers(2, 2);
    let commitments = first_round(&mut signers);
    let package = SigningPackage::new(&commitments, b"message").unwrap();
    signers[0].round1_generate_nonces().unwrap();
    assert_eq!(signers[0].round2_sign(b"message", &package), Err(ThresholdError::SigningFailure));
}

#[test]
fn shares_of_two_sessions_differ() {
    let mut signers = signers(2, 2);
    let commitments = first_round(&mut signers);
    let package = SigningPackage::new(&commitments, b"message").unwrap();
    let first = signers[0].round2_sign(b"message", &package).unwrap();

    let commitments = first_round(&mut signers);
    let package = SigningPackage::new(&commitments, b"message").unwrap();
    let second = signers[0].round2_sign(b"message", &package).unwrap();
    assert_ne!(first, second);
}

#[test]
fn a_signing_package_is_made_of_commitments_and_message() {
    let mut signers = signers(2, 3);
    let commitments = first_round(&mut signers);
    let package = SigningPackage::new(&commitments, b"message").unwrap();
    assert_eq!(SigningPackage::new(&commitments, b"message"), Some(package.clone()));
    assert_ne!(SigningPackage::new(&commitments, b"massage"), Some(package.clone()));
    assert!(package.bytes.len() > 3 * commitments[&1].bytes.len());

    let mut fewer = commitments.clone();
    fewer.remove(&3);
    assert_ne!(SigningPackage::new(&fewer, b"message"), Some(package));
}

#[test]
fn a_signing_package_takes_no_identifier_zero_and_no_broken_commitment() {
    let mut signers = signers(2, 2);
    let commitments = first_round(&mut signers);

    let mut with_zero = BTreeMap::new();
    with_zero.insert(0u16, commitments[&1].clone());
    with_zero.insert(2u16, commitments[&2].clone());
    assert_eq!(SigningPackage::new(&with_zero, b"message"), None);

    let mut broken = commitments.clone();
    broken.insert(2, SigningCommitments { bytes: vec![0u8; 69] });
    assert_eq!(SigningPackage::new(&broken, b"message"), None);
}

#[test]
fn a_request_is_answered_with_the_index_and_its_own_fields() {
    let mut signers = signers(2, 2);
    let request = SignerMessage {
        signer_index: 0,
        message_hash: [17u8; 32],
        nonce_commitment: [23u8; 32],
    };
    let answer = signers[1].receive_serialized_signing_request(&serialize(&request)).unwrap();
    let response: SignerResponse = deserialize(&answer).unwrap();
    assert_eq!(
        response,
        SignerResponse { signer_index: 2, signature_share: [17u8; 32], nonce_share: [23u8; 32] }
    );
    assert!(signers[1].signing_nonces.is_some());
    assert!(signers[1].signing_commitments.is_some());
    assert!(signers[0].signing_nonces.is_none());
}

#[test]
fn an_index_above_one_byte_is_sent_modulo_256() {
    let (mut key_packages, _) = generate_frost_keys(2, 2).unwrap();
    let mut signer = ThresholdSigner::new(258, key_packages.remove(0));
    let request = SignerMessage {
        signer_index: 0,
        message_hash: [0u8; 32],
        nonce_commitment: [0u8; 32],
    };
    let answer = signer.receive_serialized_signing_request(&serialize(&request)).unwrap();
    assert_eq!(answer[0], 2);
    assert_eq!(answer.len(), 65);
}

#[test]
fn a_request_of_the_wrong_length_changes_nothing() {
    let mut signers = signers(2, 2);
    assert_eq!(
        signers[0].receive_serialized_signing_request(&[0u8; 64]),
        Err(ThresholdError::DeserializationFailure)
    );
    assert_eq!(
        signers[0].receive_serialized_signing_request(&[0u8; 96]),
        Err(ThresholdError::DeserializationFailure)
    );
    assert!(signers[0].signing_nonces.is_none());
    assert!(signers[0].signing_commitments.is_none());
}

#[test]
fn a_request_to_a_broken_signer_fails() {
    let mut signer = ThresholdSigner::new(1, KeyPackage { bytes: Vec::new() });
    assert_eq!(
        signer.receive_serialized_signing_request(&[0u8; 65]),
        Err(ThresholdError::SigningFailure)
    );
}

#[test]
fn the_coordinator_sends_the_hash_of_the_message() {
    let (key_packages, pubkey_package) = generate_frost_keys(3, 2).unwrap();
    let signers: Vec<ThresholdSigner> = key_packages
        .into_iter()
        .enumerate()
        .map(|(i, kp)| ThresholdSigner::new((i + 1) as u16, kp))
        .collect();
    let mut coordinator = ThresholdCoordinator::new(2, signers, pubkey_package);

    let answer = coordinator.send_to_signer(1, b"abc").unwrap();
    let response: SignerResponse = deserialize(&answer).unwrap();

    let abc: [u8; 32] = [
        0xba, 0x78, 0x16, 0xbf, 0x8f, 0x01, 0xcf, 0xea, 0x41, 0x41, 0x40, 0xde, 0x5d, 0xae, 0x22,
        0x23, 0xb0, 0x03, 0x61, 0xa3, 0x96, 0x17, 0x7a, 0x9c, 0xb4, 0x10, 0xff, 0x61, 0xf2, 0x00,
        0x15, 0xad,
    ];
    assert_eq!(response.signer_index, 2);
    assert_eq!(response.signature_share, abc);
    assert_eq!(response.nonce_share, [0u8; 32]);
    let digest: [u8; 32] = Sha256::digest(b"abc").into();
    assert_eq!(response.signature_share, digest);

    assert!(coordinator.signers[1].signing_nonces.is_some());
    assert!(coordinator.signers[0].signing_nonces.is_none());
    assert!(coordinator.signers[2].signing_nonces.is_none());
}

#[test]
fn the_coordinator_sends_to_its_own_signers_only() {
    let (key_packages, pubkey_package) = generate_frost_keys(3, 2).unwrap();
    let signers: Vec<ThresholdSigner> = key_packages
        .into_iter()
        .enumerate()
        .map(|(i, kp)| ThresholdSigner::new((i + 1) as u16, kp))
        .collect();
    let mut coordinator = ThresholdCoordinator::new(2, signers, pubkey_package);
    assert_eq!(coordinator.send_to_signer(3, b"abc"), Err(ThresholdError::InvalidIdentifier));
    assert_eq!(coordinator.send_to_signer(usize::MAX, b"abc"), Err(ThresholdError::InvalidIdentifier));
    for signer in &coordinator.signers {
        assert!(signer.signing_nonces.is_none());
    }
    assert!(coordinator.send_to_signer(0, b"").is_ok());
    assert!(coordinator.send_to_signer(2, b"abc").is_ok());
}

#[test]
fn stored_nonces_replace_what_the_slots_held() {
    let mut signers = signers(2, 2);
    let first = signers[0].round1_generate_nonces().unwrap();
    let first_nonces = signers[0].signing_nonces.take().unwrap();

    let second = signers[0].round1_generate_nonces().unwrap();
    assert_ne!(first, second);

    // Putting the first pair back replaces the second one in both slots.
    let expected = first_nonces.bytes.clone();
    let published = signers[0].store_nonces(first_nonces, first.clone());
    assert_eq!(published, first);
    assert_eq!(signers[0].signing_nonces.as_ref().unwrap().bytes, expected);
    assert_eq!(signers[0].signing_commitments, Some(first));
}

#[test]
fn the_nonces_in_the_slot_are_those_of_the_published_commitments() {
    let mut signers = signers(2, 2);
    // Draw twice for the first signer: only the second pair may sign.
    let stale = signers[0].round1_generate_nonces().unwrap();
    let fresh = signers[0].round1_generate_nonces().unwrap();
    let other = signers[1].round1_generate_nonces().unwrap();

    let mut commitments = BTreeMap::new();
    commitments.insert(1u16, stale);
    commitments.insert(2u16, other.clone());
    let with_stale = SigningPackage::new(&commitments, b"message").unwrap();
    commitments.insert(1u16, fresh);
    let with_fresh = SigningPackage::new(&commitments, b"message").unwrap();

    let mut probe = ThresholdSigner::new(1, signers[0].key_package.clone());
    let kept = signers[0].signing_nonces.take().unwrap();
    let kept_commitments = signers[0].signing_commitments.clone().unwrap();
    probe.store_nonces(SigningNonces { bytes: kept.bytes.clone() }, kept_commitments.clone());
    assert_eq!(probe.round2_sign(b"message", &with_stale), Err(ThresholdError::SigningFailure));

    signers[0].store_nonces(kept, kept_commitments);
    assert!(signers[0].round2_sign(b"message", &with_fresh).is_ok());
}

#[test]
fn nonces_carry_their_commitments() {
    let mut signers = signers(2, 3);
    for signer in signers.iter_mut() {
        let published = signer.round1_generate_nonces().unwrap();
        let nonces = signer.signing_nonces.as_ref().unwrap();
        assert_eq!(nonces.commitments(), Some(published.clone()));
        assert_ne!(nonces.bytes, published.bytes);
    }
    let first = signers[0].signing_nonces.as_ref().unwrap().commitments();
    let second = signers[1].signing_nonces.as_ref().unwrap().commitments();
    assert_ne!(first, second);
    assert_eq!(SigningNonces { bytes: vec![1, 2, 3] }.commitments(), None);
}
