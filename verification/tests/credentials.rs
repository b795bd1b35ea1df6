use pqc_algo::api::{DeviceCredentials, Keygen, KeygenAction};
use pqc_algo::error::{ErrorKind, PqcError};
use pqc_algo::kem;
use pqc_algo::provider::ProviderFault;
use pqc_algo::sign;
use pqc_algo::{DilithiumKeyPair, KyberKeyPair};

fn key_pair(public: u8, secret: u8) -> Result<(Vec<u8>, Vec<u8>), ProviderFault> {
    Ok((vec![public; 8], vec![secret; 16]))
}

fn reported(text: &str) -> Result<(Vec<u8>, Vec<u8>), ProviderFault> {
    Err(ProviderFault::Reported(text.to_string()))
}

#[test]
fn two_key_pairs_make_the_credentials() {
    let credentials = DeviceCredentials::generate(key_pair(1, 2), key_pair(3, 4)).unwrap();
    assert_eq!(credentials.kyber_public_key, vec![1u8; 8]);
    assert_eq!(credentials.kyber_secret_key, vec![2u8; 16]);
    assert_eq!(credentials.dilithium_public_key, vec![3u8; 8]);
    assert_eq!(credentials.dilithium_secret_key, vec![4u8; 16]);
}

#[test]
fn a_fault_in_either_key_generation_leaves_no_credentials() {
    let e = DeviceCredentials::generate(reported("AlgorithmDisabled"), key_pair(3, 4)).unwrap_err();
    assert_eq!(e.kind(), ErrorKind::KeyGeneration);
    assert_eq!(e.detail(), "AlgorithmDisabled");
    assert_eq!(e.message(), "Key generation failed: AlgorithmDisabled");

    let e = DeviceCredentials::generate(key_pair(1, 2), reported("Error")).unwrap_err();
    assert_eq!(e.kind(), ErrorKind::KeyGeneration);
    assert_eq!(e.detail(), "Error");

    // The fault of the KEM decides where both failed.
    let e = DeviceCredentials::generate(reported("first"), reported("second")).unwrap_err();
    assert_eq!(e.detail(), "first");
}

#[test]
fn key_pairs_come_as_the_provider_gave_them() {
    let pair: KyberKeyPair = kem::generate_keypair(key_pair(1, 2)).unwrap();
    assert_eq!(pair.public_key, vec![1u8; 8]);
    assert_eq!(pair.secret_key, vec![2u8; 16]);
    let pair: DilithiumKeyPair = sign::generate_keypair(key_pair(3, 4)).unwrap();
    assert_eq!(pair.public_key, vec![3u8; 8]);
    assert_eq!(pair.secret_key, vec![4u8; 16]);
    let e = kem::generate_keypair(reported("Error")).unwrap_err();
    assert_eq!(e.kind(), ErrorKind::KeyGeneration);
    let e = sign::generate_keypair(Err(ProviderFault::SecretKeyLength)).unwrap_err();
    assert_eq!(e.kind(), ErrorKind::KeyGeneration);
    assert_eq!(e.detail(), "Invalid secret key length");
}

#[test]
fn the_generation_asks_for_one_key_pair_at_a_time() {
    let state = Keygen::start();
    assert_eq!(state.action(), KeygenAction::KemKeyPair);
    let state = state.supply(key_pair(1, 2));
    assert_eq!(state.action(), KeygenAction::SignatureKeyPair);
    let state = state.supply(key_pair(3, 4));
    assert_eq!(state.action(), KeygenAction::Finished);
    let credentials = state.finish().unwrap().unwrap();
    assert_eq!(credentials.kyber_public_key, vec![1u8; 8]);
    assert_eq!(credentials.kyber_secret_key, vec![2u8; 16]);
    assert_eq!(credentials.dilithium_public_key, vec![3u8; 8]);
    assert_eq!(credentials.dilithium_secret_key, vec![4u8; 16]);
}

#[test]
fn after_a_failed_kem_key_generation_nothing_more_is_asked() {
    let state = Keygen::start().supply(reported("AlgorithmDisabled"));
    assert_eq!(state.action(), KeygenAction::Finished);
    let e: PqcError = state.finish().unwrap().unwrap_err();
    assert_eq!(e.kind(), ErrorKind::KeyGeneration);
    assert_eq!(e.detail(), "AlgorithmDisabled");
}

#[test]
fn a_failed_signature_key_generation_drops_the_kem_keys() {
    let state = Keygen::start().supply(key_pair(1, 2)).supply(reported("Error"));
    assert_eq!(state.action(), KeygenAction::Finished);
    assert!(matches!(state, Keygen::Failed(_)));
    let e = state.finish().unwrap().unwrap_err();
    assert_eq!(e.detail(), "Error");
}

#[test]
fn a_generation_that_has_ended_stays_as_it_is() {
    let done = Keygen::start().supply(key_pair(1, 2)).supply(key_pair(3, 4));
    let still = done.supply(key_pair(5, 6));
    let credentials = still.finish().unwrap().unwrap();
    assert_eq!(credentials.kyber_public_key, vec![1u8; 8]);
    assert_eq!(credentials.dilithium_public_key, vec![3u8; 8]);

    let failed = Keygen::start().supply(reported("first"));
    let still = failed.supply(key_pair(5, 6)).supply(reported("second"));
    assert_eq!(still.finish().unwrap().unwrap_err().detail(), "first");
}

#[test]
fn a_generation_under_way_has_no_end_yet() {
    assert!(Keygen::start().finish().is_none());
    assert!(Keygen::start().supply(key_pair(1, 2)).finish().is_none());
}
