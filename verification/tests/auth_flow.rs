use pqc_algo::api::{auth_message, create_auth_request, verify_auth_request, AuthRequest, DeviceCredentials};
use pqc_algo::error::ErrorKind;
use pqc_algo::provider::ProviderFault;
use pqc_algo::sign;
use sha2::{Digest, Sha256};

const PUBLIC_KEY_LEN: usize = 1952;
const SECRET_KEY_LEN: usize = 4000;
const SIGNATURE_LEN: usize = 3293;

// A stand-in for the provider: a deterministic toy signature with the lengths
// of Dilithium3. It is no signature scheme, since the public key suffices to
// sign, but it binds message and key pair, which is all these tests need.

fn expand(label: &[u8], seed: &[u8], len: usize) -> Vec<u8> {
    let mut out = Vec::new();
    let mut counter: u32 = 0;
    while out.len() < len {
        let mut hasher = Sha256::new();
        hasher.update(label);
        hasher.update(counter.to_be_bytes());
        hasher.update(seed);
        out.extend_from_slice(&hasher.finalize());
        counter += 1;
    }
    out.truncate(len);
    out
}

fn toy_public_key(secret_key: &[u8]) -> Vec<u8> {
    expand(b"sig-pk", secret_key, PUBLIC_KEY_LEN)
}

fn toy_keypair(seed: &[u8]) -> Result<(Vec<u8>, Vec<u8>), ProviderFault> {
    let secret_key = expand(b"sig-sk", seed, SECRET_KEY_LEN);
    Ok((toy_public_key(&secret_key), secret_key))
}

fn toy_kem_keypair(seed: &[u8]) -> Result<(Vec<u8>, Vec<u8>), ProviderFault> {
    let secret_key = expand(b"sk", seed, 3168);
    Ok((expand(b"pk", &secret_key, 1568), secret_key))
}

fn toy_tag(public_key: &[u8], message: &[u8]) -> Vec<u8> {
    let mut seed = public_key.to_vec();
    seed.extend_from_slice(message);
    expand(b"sig", &seed, SIGNATURE_LEN)
}

fn toy_sign(message: &[u8], secret_key: &[u8]) -> Result<Vec<u8>, ProviderFault> {
    if secret_key.len() != SECRET_KEY_LEN {
        return Err(ProviderFault::SecretKeyLength);
    }
    Ok(toy_tag(&toy_public_key(secret_key), message))
}

fn toy_verify(
    message: &[u8],
    signature: &[u8],
    public_key: &[u8],
) -> Result<Result<(), String>, ProviderFault> {
    if public_key.len() != PUBLIC_KEY_LEN {
        return Err(ProviderFault::PublicKeyLength);
    }
    if signature.len() > SIGNATURE_LEN {
        return Err(ProviderFault::SignatureLength);
    }
    if signature == toy_tag(public_key, message).as_slice() {
        Ok(Ok(()))
    } else {
        Ok(Err("Error".to_string()))
    }
}

fn device(seed: &[u8]) -> DeviceCredentials {
    DeviceCredentials::generate(toy_kem_keypair(seed), toy_keypair(seed)).unwrap()
}

fn request(device_id: &str, nonce: &[u8], secret_key: &[u8]) -> AuthRequest {
    create_auth_request(device_id, nonce, toy_sign(&auth_message(device_id, nonce), secret_key))
        .unwrap()
}

fn holds(request: &AuthRequest, public_key: &[u8]) -> bool {
    verify_auth_request(toy_verify(&request.message(), &request.signature, public_key)).unwrap()
}

#[test]
fn test_full_auth_flow() {
    let device = device(b"device");
    let auth_request = create_auth_request(
        "device_123",
        b"nonce",
        toy_sign(&auth_message("device_123", b"nonce"), &device.dilithium_secret_key),
    )
    .unwrap();
    let is_valid = verify_auth_request(toy_verify(
        &auth_request.message(),
        &auth_request.signature,
        &device.dilithium_public_key,
    ))
    .unwrap();
    assert!(is_valid);
}

#[test]
fn test_dilithium_sign_verify() {
    let keypair = sign::generate_keypair(toy_keypair(b"sign")).unwrap();
    let message = b"device_id:123|nonce:abc|timestamp:1234567890";

    let signature = sign::sign(toy_sign(message, &keypair.secret_key)).unwrap();
    let is_valid = sign::verify(toy_verify(message, &signature, &keypair.public_key)).unwrap();

    assert!(is_valid);
}

#[test]
fn test_dilithium_invalid_signature() {
    let keypair = sign::generate_keypair(toy_keypair(b"sign")).unwrap();
    let message = b"original message";

    let signature = sign::sign(toy_sign(message, &keypair.secret_key)).unwrap();

    let tampered_message = b"tampered message";
    let is_valid =
        sign::verify(toy_verify(tampered_message, &signature, &keypair.public_key)).unwrap();

    assert!(!is_valid);
}

#[test]
fn the_message_is_the_device_a_bar_and_the_nonce_in_hex() {
    assert_eq!(auth_message("device_123", b"nonce"), b"device_123|6e6f6e6365");
    assert_eq!(auth_message("device_123", b""), b"device_123|");
    assert_eq!(auth_message("", &[0x00, 0x0f, 0xa0, 0xff]), b"|000fa0ff");
    assert_eq!(auth_message("d|1", &[0xAB, 0xCD, 0xEF]), b"d|1|abcdef");
    assert_eq!(auth_message("ger\u{e4}t", &[1]), "ger\u{e4}t|01".as_bytes());
}

#[test]
fn the_request_carries_what_was_signed() {
    let device = device(b"carry");
    let built = request("device_123", b"nonce", &device.dilithium_secret_key);
    assert_eq!(built.device_id, "device_123");
    assert_eq!(built.nonce, b"nonce");
    assert_eq!(
        built.signature,
        toy_sign(b"device_123|6e6f6e6365", &device.dilithium_secret_key).unwrap()
    );
    assert_eq!(built.message(), auth_message("device_123", b"nonce"));
    assert_eq!(built.message(), b"device_123|6e6f6e6365");
}

#[test]
fn a_request_holds_under_its_own_key_only() {
    let device = device(b"mine");
    let other = device_two();
    let built = request("device_123", b"nonce", &device.dilithium_secret_key);
    assert!(holds(&built, &device.dilithium_public_key));
    assert!(!holds(&built, &other.dilithium_public_key));
}

fn device_two() -> DeviceCredentials {
    device(b"other")
}

#[test]
fn a_tampered_nonce_or_device_does_not_hold() {
    let device = device(b"tamper");
    let built = request("device_123", b"nonce", &device.dilithium_secret_key);

    let mut other_nonce = built.clone();
    other_nonce.nonce[0] ^= 1;
    assert!(!holds(&other_nonce, &device.dilithium_public_key));

    let mut longer_nonce = built.clone();
    longer_nonce.nonce.push(0);
    assert!(!holds(&longer_nonce, &device.dilithium_public_key));

    let mut other_device = built.clone();
    other_device.device_id = "device_124".to_string();
    assert!(!holds(&other_device, &device.dilithium_public_key));

    let mut other_signature = built.clone();
    other_signature.signature[100] ^= 0x80;
    assert!(!holds(&other_signature, &device.dilithium_public_key));

    assert!(holds(&built, &device.dilithium_public_key));
}

#[test]
fn the_bar_between_device_and_nonce_cannot_be_moved() {
    assert_ne!(auth_message("a|0a", b""), auth_message("a", &[0x0a]));
    assert_ne!(auth_message("a", &[0x0a, 0x0b]), auth_message("a|0a", &[0x0b]));
    assert_ne!(auth_message("ab", &[0xcd]), auth_message("abcd", b""));
    let device = device(b"bar");
    let built = request("a|0a", &[0x0b], &device.dilithium_secret_key);
    let moved = AuthRequest {
        device_id: "a".to_string(),
        nonce: vec![0x0a, 0x0b],
        signature: built.signature.clone(),
    };
    assert!(holds(&built, &device.dilithium_public_key));
    assert!(!holds(&moved, &device.dilithium_public_key));
}

#[test]
fn a_fault_in_signing_is_a_signing_error() {
    let e = create_auth_request("device_123", b"nonce", toy_sign(b"m", &[0u8; 12])).unwrap_err();
    assert_eq!(e.kind(), ErrorKind::Signing);
    assert_eq!(e.detail(), "Invalid secret key length");
    assert_eq!(e.message(), "Signature generation failed: Invalid secret key length");
    let e = sign::sign(Err(ProviderFault::Reported("Error".to_string()))).unwrap_err();
    assert_eq!(e.kind(), ErrorKind::Signing);
    assert_eq!(e.detail(), "Error");
}

#[test]
fn a_signature_that_is_too_long_does_not_hold() {
    let device = device(b"long");
    let built = request("device_123", b"nonce", &device.dilithium_secret_key);
    for len in [SIGNATURE_LEN + 1, 5000] {
        let long = AuthRequest {
            device_id: built.device_id.clone(),
            nonce: built.nonce.clone(),
            signature: vec![0u8; len],
        };
        let verification =
            toy_verify(&long.message(), &long.signature, &device.dilithium_public_key);
        assert!(matches!(verification, Err(ProviderFault::SignatureLength)));
        assert_eq!(verify_auth_request(verification).unwrap(), false);
    }
    assert_eq!(verify_auth_request(Err(ProviderFault::SignatureLength)).unwrap(), false);
    assert_eq!(sign::verify(Err(ProviderFault::SignatureLength)).unwrap(), false);
    // A public key of the wrong length decides before the signature is looked at.
    let e = verify_auth_request(toy_verify(&built.message(), &vec![0u8; 5000], &[0u8; 7]))
        .unwrap_err();
    assert_eq!(e.kind(), ErrorKind::Verification);
    assert_eq!(e.detail(), "Invalid public key length");
}

#[test]
fn only_unusable_material_is_a_verification_error() {
    let device = device(b"verify");
    let built = request("device_123", b"nonce", &device.dilithium_secret_key);

    let e = verify_auth_request(toy_verify(&built.message(), &built.signature, &[0u8; 7]))
        .unwrap_err();
    assert_eq!(e.kind(), ErrorKind::Verification);
    assert_eq!(e.detail(), "Invalid public key length");
    assert_eq!(e.message(), "Signature verification failed: Invalid public key length");

    let e = sign::verify(Err(ProviderFault::Reported("AlgorithmDisabled".to_string())))
        .unwrap_err();
    assert_eq!(e.kind(), ErrorKind::Verification);
    assert_eq!(e.detail(), "AlgorithmDisabled");
    let e = verify_auth_request(Err(ProviderFault::Reported("InvalidLength".to_string())))
        .unwrap_err();
    assert_eq!(e.kind(), ErrorKind::Verification);
    assert_eq!(e.detail(), "InvalidLength");

    // A signature that is well formed and wrong is no error.
    assert_eq!(verify_auth_request(Ok(Err("Error".to_string()))).unwrap(), false);
    assert_eq!(verify_auth_request(Ok(Ok(()))).unwrap(), true);
    assert_eq!(sign::verify(Ok(Err(String::new()))).unwrap(), false);
    // A short signature is one the provider takes, and rejects.
    assert!(!verify_auth_request(toy_verify(&built.message(), &[], &device.dilithium_public_key))
        .unwrap());
}
