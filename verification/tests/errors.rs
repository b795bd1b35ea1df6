use pqc_algo::error::{ErrorKind, PqcError};
use pqc_algo::provider::ProviderFault;

#[test]
fn every_class_of_error_has_its_message() {
    let cases = [
        (ErrorKind::KeyGeneration, "Key generation failed: why"),
        (ErrorKind::Encryption, "Encryption failed: why"),
        (ErrorKind::Decryption, "Decryption failed: why"),
        (ErrorKind::Signing, "Signature generation failed: why"),
        (ErrorKind::Verification, "Signature verification failed: why"),
        (ErrorKind::InvalidInput, "Invalid input: why"),
        (ErrorKind::Io, "I/O error: why"),
        (ErrorKind::InvalidKey, "Invalid key: why"),
    ];
    for (kind, message) in cases {
        let e = PqcError::new(kind, "why".to_string());
        assert_eq!(e.kind(), kind);
        assert_eq!(e.detail(), "why");
        assert_eq!(e.message(), message);
    }
}

#[test]
fn the_variants_are_the_classes() {
    assert_eq!(PqcError::KeyGeneration(String::new()).kind(), ErrorKind::KeyGeneration);
    assert_eq!(PqcError::Encryption(String::new()).kind(), ErrorKind::Encryption);
    assert_eq!(PqcError::Decryption(String::new()).kind(), ErrorKind::Decryption);
    assert_eq!(PqcError::Signing(String::new()).kind(), ErrorKind::Signing);
    assert_eq!(PqcError::Verification(String::new()).kind(), ErrorKind::Verification);
    assert_eq!(PqcError::InvalidInput(String::new()).kind(), ErrorKind::InvalidInput);
    assert_eq!(PqcError::Io(String::new()).kind(), ErrorKind::Io);
    assert_eq!(PqcError::InvalidKey("k".to_string()).kind(), ErrorKind::InvalidKey);
    assert_eq!(PqcError::InvalidKey("k".to_string()).message(), "Invalid key: k");
    assert_eq!(PqcError::Io(String::new()).message(), "I/O error: ");
}

#[test]
fn every_fault_has_its_detail() {
    assert_eq!(ProviderFault::Reported("InvalidLength".to_string()).into_detail(), "InvalidLength");
    assert_eq!(ProviderFault::PublicKeyLength.into_detail(), "Invalid public key length");
    assert_eq!(ProviderFault::SecretKeyLength.into_detail(), "Invalid secret key length");
    assert_eq!(ProviderFault::CiphertextLength.into_detail(), "Invalid ciphertext length");
    assert_eq!(ProviderFault::SignatureLength.into_detail(), "Invalid signature length");
}
