use crate::aead::{
    aes256_gcm_decrypt, aes256_gcm_encrypt, aes256_gcm_open, aes256_gcm_seal, fresh_nonce,
    KEY_LEN, MAX_PLAINTEXT_LEN, NONCE_LEN, TAG_LEN,
};
use crate::bytes::append_bytes;
use crate::error::{outcome, ErrorKind, Failure, PqcError};
use crate::hexcode::{hex_encode, hex_lower, lemma_hex_digit, lemma_hex_lower_injective};
use crate::kem;
use crate::kem::{KeyPairView, KyberKeyPair};
use crate::provider::{BytesReply, EncapsulationReply, KeyPairReply, VerificationReply};
use crate::sign;
use crate::sign::{verification_outcome, verified, DilithiumKeyPair};
use vstd::prelude::*;
use vstd::slice::{slice_subrange, slice_to_vec};
use vstd::utf8::{encode_utf8, encode_utf8_decode_utf8};

verus! {

/// Entropy sealed for one device: the KEM ciphertext that carries the shared
/// secret, and the data sealed under that secret, a 12-byte nonce followed by
/// the AEAD ciphertext and its tag.
#[derive(Debug, Clone)]
pub struct EncryptedEntropy {
    pub ciphertext: Vec<u8>,
    pub encrypted_data: Vec<u8>,
}

/// Sealed entropy as two byte strings.
pub struct EncryptedEntropyView {
    pub ciphertext: Seq<u8>,
    pub encrypted_data: Seq<u8>,
}

impl View for EncryptedEntropy {
    type V = EncryptedEntropyView;

    open spec fn view(&self) -> EncryptedEntropyView {
        EncryptedEntropyView {
            ciphertext: self.ciphertext@,
            encrypted_data: self.encrypted_data@,
        }
    }
}

/// How an encryption ended: the sealed entropy, or the class and the detail
/// of the error.
pub open spec fn sealed_outcome(
    r: Result<EncryptedEntropy, PqcError>,
) -> Result<EncryptedEntropyView, Failure> {
    match r {
        Ok(sealed) => Ok(sealed@),
        Err(e) => Err(e@),
    }
}

/// What sealing `plaintext` under a shared secret and a nonce gives. The key
/// is the first 32 bytes of the secret, so a shorter secret is refused as
/// invalid input; a plaintext longer than one AEAD call may seal is an
/// encryption error. Otherwise the result is the nonce followed by the AEAD
/// output.
pub open spec fn sealed_with(
    shared_secret: Seq<u8>,
    nonce: Seq<u8>,
    plaintext: Seq<u8>,
) -> Result<Seq<u8>, Failure> {
    if shared_secret.len() < KEY_LEN {
        Err((ErrorKind::InvalidInput, "Shared secret too short"@))
    } else if plaintext.len() > MAX_PLAINTEXT_LEN {
        Err((ErrorKind::Encryption, "aead::Error"@))
    } else {
        Ok(nonce + aes256_gcm_seal(shared_secret.take(KEY_LEN as int), nonce, plaintext))
    }
}

/// What the AEAD recovers from `data` under a shared secret: the first 12
/// bytes of the data are the nonce, the rest is the sealed plaintext, and the
/// first 32 bytes of the secret are the key.
pub open spec fn recovered(shared_secret: Seq<u8>, data: Seq<u8>) -> Option<Seq<u8>> {
    aes256_gcm_open(
        shared_secret.take(KEY_LEN as int),
        data.take(NONCE_LEN as int),
        data.skip(NONCE_LEN as int),
    )
}

/// What opening `data` under a shared secret gives. Data too short to hold a
/// nonce is refused first, as a decryption error; then a secret too short to
/// hold a key, as invalid input; then data longer than one AEAD call may open.
/// Otherwise the first 12 bytes are the nonce and the rest is opened under the
/// first 32 bytes of the secret: the plaintext where the tag holds, a
/// decryption error where it does not.
pub open spec fn opened_with(shared_secret: Seq<u8>, data: Seq<u8>) -> Result<Seq<u8>, Failure> {
    if data.len() < NONCE_LEN {
        Err((ErrorKind::Decryption, "Invalid ciphertext"@))
    } else if shared_secret.len() < KEY_LEN {
        Err((ErrorKind::InvalidInput, "Shared secret too short"@))
    } else if data.len() - NONCE_LEN > MAX_PLAINTEXT_LEN + TAG_LEN {
        Err((ErrorKind::Decryption, "aead::Error"@))
    } else {
        match recovered(shared_secret, data) {
            Some(plaintext) => Ok(plaintext),
            None => Err((ErrorKind::Decryption, "aead::Error"@)),
        }
    }
}

/// Seals `plaintext` under the first 32 bytes of `key` and the given nonce.
/// The result is `sealed_with` of the three, and what it seals opens again
/// under the same key to the same plaintext.
pub fn encrypt_with_nonce(
    key: &[u8],
    nonce: &[u8; 12],
    plaintext: &[u8],
) -> (r: Result<Vec<u8>, PqcError>)
    ensures
        outcome(r) == sealed_with(key@, nonce@, plaintext@),
        r matches Ok(data) ==> data@.len() == NONCE_LEN + plaintext@.len() + TAG_LEN,
        r matches Ok(data) ==> opened_with(key@, data@) == Ok::<Seq<u8>, Failure>(plaintext@),
{
    if key.len() < KEY_LEN {
        return Err(PqcError::InvalidInput("Shared secret too short".to_owned()));
    }
    if plaintext.len() as u64 > MAX_PLAINTEXT_LEN {
        return Err(PqcError::Encryption("aead::Error".to_owned()));
    }
    let aes_key = slice_subrange(key, 0, KEY_LEN);
    match aes256_gcm_encrypt(aes_key, nonce.as_slice(), plaintext) {
        Some(sealed) => {
            let mut data: Vec<u8> = Vec::new();
            append_bytes(&mut data, nonce.as_slice());
            append_bytes(&mut data, sealed.as_slice());
            proof {
                assert(data@.take(NONCE_LEN as int) =~= nonce@);
                assert(data@.skip(NONCE_LEN as int) =~= sealed@);
            }
            Ok(data)
        },
        None => Err(PqcError::Encryption("aead::Error".to_owned())),
    }
}

/// Seals `plaintext` under the first 32 bytes of `key` and a nonce that is
/// drawn afresh. Whatever the nonce, the call succeeds exactly where the key
/// and the plaintext have an admissible length, the data is `sealed_with` of
/// some 12-byte nonce, and it opens again under the same key to the same
/// plaintext.
pub fn encrypt_with_aes(key: &[u8], plaintext: &[u8]) -> (r: Result<Vec<u8>, PqcError>)
    ensures
        exists|nonce: Seq<u8>|
            nonce.len() == NONCE_LEN && outcome(r) == #[trigger] sealed_with(
                key@,
                nonce,
                plaintext@,
            ),
        r is Ok <==> key@.len() >= KEY_LEN && plaintext@.len() <= MAX_PLAINTEXT_LEN,
        r matches Ok(data) ==> data@.len() == NONCE_LEN + plaintext@.len() + TAG_LEN,
        r matches Ok(data) ==> opened_with(key@, data@) == Ok::<Seq<u8>, Failure>(plaintext@),
{
    let nonce = fresh_nonce();
    encrypt_with_nonce(key, &nonce, plaintext)
}

/// Opens `data`, a nonce followed by sealed bytes, under the first 32 bytes
/// of `key`. The result is `opened_with` of the two: no plaintext comes back
/// unless the tag holds. A plaintext that comes back is a nonce and a tag
/// shorter than the data, so data with no room for a tag is an error.
pub fn decrypt_with_aes(key: &[u8], data: &[u8]) -> (r: Result<Vec<u8>, PqcError>)
    ensures
        outcome(r) == opened_with(key@, data@),
        r matches Ok(plaintext) ==> plaintext@.len() + NONCE_LEN + TAG_LEN == data@.len(),
{
    if data.len() < NONCE_LEN {
        return Err(PqcError::Decryption("Invalid ciphertext".to_owned()));
    }
    if key.len() < KEY_LEN {
        return Err(PqcError::InvalidInput("Shared secret too short".to_owned()));
    }
    if (data.len() - NONCE_LEN) as u64 > MAX_PLAINTEXT_LEN + TAG_LEN as u64 {
        return Err(PqcError::Decryption("aead::Error".to_owned()));
    }
    let aes_key = slice_subrange(key, 0, KEY_LEN);
    let nonce = slice_subrange(data, 0, NONCE_LEN);
    let sealed = slice_subrange(data, NONCE_LEN, data.len());
    match aes256_gcm_decrypt(aes_key, nonce, sealed) {
        Some(plaintext) => Ok(plaintext),
        None => Err(PqcError::Decryption("aead::Error".to_owned())),
    }
}

/// What encrypting `entropy` for a device gives, from what the provider's
/// encapsulation against the device's public key answered and from the nonce
/// used. A fault of the provider is an encryption error; otherwise the
/// entropy is sealed under the shared secret, and travels with the KEM
/// ciphertext that carries that secret.
pub open spec fn encrypted_for(
    entropy: Seq<u8>,
    encapsulation: EncapsulationReply,
    nonce: Seq<u8>,
) -> Result<EncryptedEntropyView, Failure> {
    match encapsulation {
        Err(fault) => Err((ErrorKind::Encryption, fault.detail())),
        Ok((ciphertext, shared_secret)) => match sealed_with(shared_secret@, nonce, entropy) {
            Ok(data) => Ok(EncryptedEntropyView { ciphertext: ciphertext@, encrypted_data: data }),
            Err(failure) => Err(failure),
        },
    }
}

/// What decrypting sealed entropy gives, from what the provider's
/// decapsulation of its KEM ciphertext answered. Data too short to hold a
/// nonce is refused before the provider's answer is looked at; a fault of the
/// provider is a decryption error; otherwise the data is opened under the
/// shared secret.
pub open spec fn decrypted(
    encrypted: EncryptedEntropyView,
    decapsulation: BytesReply,
) -> Result<Seq<u8>, Failure> {
    if encrypted.encrypted_data.len() < NONCE_LEN {
        Err((ErrorKind::Decryption, "Invalid ciphertext"@))
    } else {
        match decapsulation {
            Err(fault) => Err((ErrorKind::Decryption, fault.detail())),
            Ok(shared_secret) => opened_with(shared_secret@, encrypted.encrypted_data),
        }
    }
}

/// No plaintext comes back unless the tag holds. Where opening gives a
/// plaintext, it is the one that the AEAD recovers from the data under the
/// key and the nonce; where the AEAD recovers none, opening ends in an error,
/// and in a decryption error if the secret holds a key.
pub proof fn lemma_opening_rests_on_the_tag(shared_secret: Seq<u8>, data: Seq<u8>)
    ensures
        opened_with(shared_secret, data) matches Ok(plaintext) ==> recovered(shared_secret, data)
            == Some(plaintext),
        recovered(shared_secret, data) is None ==> opened_with(shared_secret, data) is Err,
        recovered(shared_secret, data) is None && shared_secret.len() >= KEY_LEN ==> (opened_with(
            shared_secret,
            data,
        ) matches Err(failure) && failure.0 == ErrorKind::Decryption),
{
}

/// Sealed entropy decrypts only through the shared secret and the tag: where
/// decryption gives entropy, the provider answered with a shared secret, and
/// the entropy is what opening the sealed data under that secret gives.
pub proof fn lemma_decryption_rests_on_the_opening(
    encrypted: EncryptedEntropyView,
    decapsulation: BytesReply,
)
    ensures
        decrypted(encrypted, decapsulation) matches Ok(entropy) ==> decapsulation matches Ok(
            shared_secret,
        ) && opened_with(shared_secret@, encrypted.encrypted_data) == Ok::<Seq<u8>, Failure>(
            entropy,
        ),
{
}

/// Encrypts `entropy` for a device under the given nonce. `encapsulation` is
/// what the provider answered when asked to encapsulate against the device's
/// KEM public key. The result is `encrypted_for` of the three. What comes out
/// decrypts to `entropy` again once the device's secret key has recovered the
/// same shared secret.
pub fn encrypt_entropy_with_nonce(
    entropy: &[u8],
    encapsulation: EncapsulationReply,
    nonce: &[u8; 12],
) -> (r: Result<EncryptedEntropy, PqcError>)
    ensures
        sealed_outcome(r) == encrypted_for(entropy@, encapsulation, nonce@),
        r matches Ok(sealed) ==> sealed@.encrypted_data.len() == NONCE_LEN + entropy@.len()
            + TAG_LEN,
        r matches Ok(sealed) ==> encapsulation matches Ok((_, shared_secret)) && decrypted(
            sealed@,
            Ok(shared_secret),
        ) == Ok::<Seq<u8>, Failure>(entropy@),
{
    let (ciphertext, shared_secret) = kem::encapsulate(encapsulation)?;
    let encrypted_data = encrypt_with_nonce(shared_secret.as_slice(), nonce, entropy)?;
    Ok(EncryptedEntropy { ciphertext, encrypted_data })
}

/// Encrypts `entropy` for a device under a nonce that is drawn afresh.
/// `encapsulation` is what the provider answered when asked to encapsulate
/// against the device's KEM public key. Whatever the nonce, the result is
/// `encrypted_for` of the entropy, the answer and some 12-byte nonce; the call
/// succeeds exactly where the provider answered with a shared secret of at
/// least 32 bytes and the entropy is no longer than one AEAD call may seal;
/// and what comes out decrypts to `entropy` again once the device's secret key
/// has recovered the same shared secret.
pub fn encrypt_entropy_for_device(
    entropy: &[u8],
    encapsulation: EncapsulationReply,
) -> (r: Result<EncryptedEntropy, PqcError>)
    ensures
        exists|nonce: Seq<u8>|
            nonce.len() == NONCE_LEN && sealed_outcome(r) == #[trigger] encrypted_for(
                entropy@,
                encapsulation,
                nonce,
            ),
        r is Ok <==> (encapsulation matches Ok((_, shared_secret)) && shared_secret@.len()
            >= KEY_LEN && entropy@.len() <= MAX_PLAINTEXT_LEN),
        r matches Ok(sealed) ==> sealed@.encrypted_data.len() == NONCE_LEN + entropy@.len()
            + TAG_LEN,
        r matches Ok(sealed) ==> encapsulation matches Ok((_, shared_secret)) && decrypted(
            sealed@,
            Ok(shared_secret),
        ) == Ok::<Seq<u8>, Failure>(entropy@),
{
    let nonce = fresh_nonce();
    encrypt_entropy_with_nonce(entropy, encapsulation, &nonce)
}

/// Decrypts sealed entropy. `decapsulation` is what the provider answered
/// when asked to decapsulate `encrypted.ciphertext` with the device's KEM
/// secret key. The result is `decrypted` of the two: the entropy comes back
/// only where the tag holds, and never in part. Entropy that comes back is a
/// nonce and a tag shorter than the sealed data, so data with no room for a
/// tag is an error.
pub fn decrypt_entropy(
    encrypted: &EncryptedEntropy,
    decapsulation: BytesReply,
) -> (r: Result<Vec<u8>, PqcError>)
    ensures
        outcome(r) == decrypted(encrypted@, decapsulation),
        r matches Ok(entropy) ==> entropy@.len() + NONCE_LEN + TAG_LEN
            == encrypted@.encrypted_data.len(),
{
    if encrypted.encrypted_data.len() < NONCE_LEN {
        return Err(PqcError::Decryption("Invalid ciphertext".to_owned()));
    }
    let shared_secret = kem::decapsulate(decapsulation)?;
    decrypt_with_aes(shared_secret.as_slice(), encrypted.encrypted_data.as_slice())
}

/// A signed answer to an authentication challenge.
#[derive(Debug, Clone)]
pub struct AuthRequest {
    pub device_id: String,
    pub nonce: Vec<u8>,
    pub signature: Vec<u8>,
}

/// An authentication request as text and two byte strings.
pub struct AuthRequestView {
    pub device_id: Seq<char>,
    pub nonce: Seq<u8>,
    pub signature: Seq<u8>,
}

impl View for AuthRequest {
    type V = AuthRequestView;

    open spec fn view(&self) -> AuthRequestView {
        AuthRequestView { device_id: self.device_id@, nonce: self.nonce@, signature: self.signature@ }
    }
}

/// The text that is signed for a device and a nonce: the device's identifier,
/// a vertical bar, and the nonce in lower-case hexadecimal.
pub open spec fn canonical_text(device_id: Seq<char>, nonce: Seq<u8>) -> Seq<char> {
    device_id + seq!['|'] + hex_lower(nonce)
}

/// The bytes that are signed for a device and a nonce: the canonical text in
/// UTF-8.
pub open spec fn canonical_message(device_id: Seq<char>, nonce: Seq<u8>) -> Seq<u8> {
    encode_utf8(canonical_text(device_id, nonce))
}

/// The canonical text tells the device and the nonce apart: the last vertical
/// bar in it is the separator, since no hexadecimal digit is one.
pub proof fn lemma_canonical_text_injective(
    device_a: Seq<char>,
    nonce_a: Seq<u8>,
    device_b: Seq<char>,
    nonce_b: Seq<u8>,
)
    requires
        canonical_text(device_a, nonce_a) == canonical_text(device_b, nonce_b),
    ensures
        device_a == device_b,
        nonce_a == nonce_b,
{
    let text_a = canonical_text(device_a, nonce_a);
    let text_b = canonical_text(device_b, nonce_b);
    let hex_a = hex_lower(nonce_a);
    let hex_b = hex_lower(nonce_b);
    assert(text_a.len() == device_a.len() + 1 + hex_a.len());
    assert(text_b.len() == device_b.len() + 1 + hex_b.len());
    if device_a.len() < device_b.len() {
        let at = device_b.len() as int;
        let k = at - device_a.len() - 1;
        assert(text_b[at] == '|');
        assert(text_a[at] == hex_a[k]);
        lemma_hex_digit(nonce_a[k / 2] / 16, 0);
        lemma_hex_digit(nonce_a[k / 2] % 16, 0);
        assert(false);
    }
    if device_b.len() < device_a.len() {
        let at = device_a.len() as int;
        let k = at - device_b.len() - 1;
        assert(text_a[at] == '|');
        assert(text_b[at] == hex_b[k]);
        lemma_hex_digit(nonce_b[k / 2] / 16, 0);
        lemma_hex_digit(nonce_b[k / 2] % 16, 0);
        assert(false);
    }
    assert forall|i: int| 0 <= i < device_a.len() implies device_a[i] == device_b[i] by {
        assert(text_a[i] == device_a[i]);
        assert(text_b[i] == device_b[i]);
    }
    assert(device_a =~= device_b);
    assert forall|i: int| 0 <= i < hex_a.len() implies hex_a[i] == hex_b[i] by {
        assert(text_a[device_a.len() + 1 + i] == hex_a[i]);
        assert(text_b[device_b.len() + 1 + i] == hex_b[i]);
    }
    assert(hex_a =~= hex_b);
    lemma_hex_lower_injective(nonce_a, nonce_b);
}

/// A signed message stands for one device and one nonce only: requests that
/// differ in the device's identifier or in the nonce have different
/// canonical messages, so a signature over one says nothing of the other.
pub proof fn lemma_canonical_message_injective(
    device_a: Seq<char>,
    nonce_a: Seq<u8>,
    device_b: Seq<char>,
    nonce_b: Seq<u8>,
)
    requires
        canonical_message(device_a, nonce_a) == canonical_message(device_b, nonce_b),
    ensures
        device_a == device_b,
        nonce_a == nonce_b,
{
    encode_utf8_decode_utf8(canonical_text(device_a, nonce_a));
    encode_utf8_decode_utf8(canonical_text(device_b, nonce_b));
    lemma_canonical_text_injective(device_a, nonce_a, device_b, nonce_b);
}

/// The bytes to sign, or to verify a signature against, for a device and a
/// nonce: the canonical message of the two.
pub fn auth_message(device_id: &str, nonce: &[u8]) -> (message: Vec<u8>)
    ensures
        message@ == canonical_message(device_id@, nonce@),
{
    let mut text = String::from_str(device_id);
    text.append("|");
    let digits = hex_encode(nonce);
    text.append(digits.as_str());
    proof {
        reveal_strlit("|");
        assert("|"@ =~= seq!['|']);
    }
    text.as_str().as_bytes_vec()
}

impl AuthRequest {
    /// The bytes that the signature of this request must hold for: the
    /// canonical message of its device and its nonce.
    pub fn message(&self) -> (message: Vec<u8>)
        ensures
            message@ == canonical_message(self@.device_id, self@.nonce),
    {
        auth_message(self.device_id.as_str(), self.nonce.as_slice())
    }
}

/// How the building of a request ended: the request, or the class and the
/// detail of the error.
pub open spec fn request_outcome(r: Result<AuthRequest, PqcError>) -> Result<AuthRequestView, Failure> {
    match r {
        Ok(request) => Ok(request@),
        Err(e) => Err(e@),
    }
}

/// What building a request gives, from what the provider's signing of the
/// canonical message answered: the request with that signature, or a signing
/// error where the provider had a fault.
pub open spec fn built_request(
    device_id: Seq<char>,
    nonce: Seq<u8>,
    signing: BytesReply,
) -> Result<AuthRequestView, Failure> {
    match signing {
        Ok(signature) => Ok(AuthRequestView { device_id, nonce, signature: signature@ }),
        Err(fault) => Err((ErrorKind::Signing, fault.detail())),
    }
}

/// Builds the authentication request of a device for a nonce. `signing` is
/// what the provider answered when asked to sign `auth_message(device_id,
/// nonce)` with the device's secret key. The request carries the device, the
/// nonce and the signature as they were given, so its own message is the one
/// that was signed.
pub fn create_auth_request(
    device_id: &str,
    nonce: &[u8],
    signing: BytesReply,
) -> (r: Result<AuthRequest, PqcError>)
    ensures
        request_outcome(r) == built_request(device_id@, nonce@, signing),
        r matches Ok(request) ==> canonical_message(request@.device_id, request@.nonce)
            == canonical_message(device_id@, nonce@),
{
    let signature = sign::sign(signing)?;
    Ok(AuthRequest { device_id: String::from_str(device_id), nonce: slice_to_vec(nonce), signature })
}

/// Whether an authentication request holds. `verification` is what the
/// provider answered when asked to verify the request's signature against the
/// request's message, `AuthRequest::message`, under the device's public key.
/// The result is `verified` of the answer: a signature that the provider
/// rejected, or did not take for its length, gives `false`; only a public key
/// that the provider could not take, or a failure that the provider reported,
/// gives an error.
pub fn verify_auth_request(verification: VerificationReply) -> (r: Result<bool, PqcError>)
    ensures
        verification_outcome(r) == verified(verification),
{
    sign::verify(verification)
}

/// The keys of one device: a KEM key pair and a signature key pair. The four
/// exist together or not at all.
#[derive(Debug, Clone)]
pub struct DeviceCredentials {
    pub kyber_public_key: Vec<u8>,
    pub kyber_secret_key: Vec<u8>,
    pub dilithium_public_key: Vec<u8>,
    pub dilithium_secret_key: Vec<u8>,
}

/// A device's keys as four byte strings.
pub struct DeviceCredentialsView {
    pub kyber_public_key: Seq<u8>,
    pub kyber_secret_key: Seq<u8>,
    pub dilithium_public_key: Seq<u8>,
    pub dilithium_secret_key: Seq<u8>,
}

impl View for DeviceCredentials {
    type V = DeviceCredentialsView;

    open spec fn view(&self) -> DeviceCredentialsView {
        DeviceCredentialsView {
            kyber_public_key: self.kyber_public_key@,
            kyber_secret_key: self.kyber_secret_key@,
            dilithium_public_key: self.dilithium_public_key@,
            dilithium_secret_key: self.dilithium_secret_key@,
        }
    }
}

/// How a generation of credentials ended: the credentials, or the class and
/// the detail of the error.
pub open spec fn credentials_outcome(
    r: Result<DeviceCredentials, PqcError>,
) -> Result<DeviceCredentialsView, Failure> {
    match r {
        Ok(credentials) => Ok(credentials@),
        Err(e) => Err(e@),
    }
}

/// What generating credentials gives, from what the provider answered to the
/// two requests for a key pair. A fault in the KEM answer decides alone; then
/// a fault in the signature answer; only two key pairs make credentials.
pub open spec fn generated(
    kem_keys: KeyPairReply,
    signature_keys: KeyPairReply,
) -> Result<DeviceCredentialsView, Failure> {
    match kem_keys {
        Err(fault) => Err((ErrorKind::KeyGeneration, fault.detail())),
        Ok((kem_public, kem_secret)) => match signature_keys {
            Err(fault) => Err((ErrorKind::KeyGeneration, fault.detail())),
            Ok((signature_public, signature_secret)) => Ok(
                DeviceCredentialsView {
                    kyber_public_key: kem_public@,
                    kyber_secret_key: kem_secret@,
                    dilithium_public_key: signature_public@,
                    dilithium_secret_key: signature_secret@,
                },
            ),
        },
    }
}

/// What a generation of credentials asks of the provider next.
#[derive(Debug, Clone, Copy, PartialEq, Eq, Structural)]
pub enum KeygenAction {
    /// Generate a KEM key pair.
    KemKeyPair,
    /// Generate a signature key pair.
    SignatureKeyPair,
    /// Nothing more: the generation has ended.
    Finished,
}

/// How far a generation of credentials has come. The provider is asked for
/// one key pair at a time, and only for as long as nothing has failed.
#[derive(Debug)]
pub enum Keygen {
    /// No key exists yet.
    AwaitingKem,
    /// The KEM key pair exists; the signature key pair is still to come.
    AwaitingSignature(KyberKeyPair),
    /// Both key pairs exist.
    Done(DeviceCredentials),
    /// A key generation failed; no key is kept.
    Failed(PqcError),
}

impl Keygen {
    /// The request that this state waits for.
    pub open spec fn next_action(self) -> KeygenAction {
        match self {
            Keygen::AwaitingKem => KeygenAction::KemKeyPair,
            Keygen::AwaitingSignature(_) => KeygenAction::SignatureKeyPair,
            Keygen::Done(_) => KeygenAction::Finished,
            Keygen::Failed(_) => KeygenAction::Finished,
        }
    }

    /// How the generation has ended, if it has.
    pub open spec fn ended(self) -> Option<Result<DeviceCredentialsView, Failure>> {
        match self {
            Keygen::AwaitingKem => None,
            Keygen::AwaitingSignature(_) => None,
            Keygen::Done(credentials) => Some(Ok(credentials@)),
            Keygen::Failed(e) => Some(Err(e@)),
        }
    }

    /// Whether `next` is the state that follows this one on the provider's
    /// answer `reply`. A key pair moves the generation on by one step, a
    /// fault ends it with a key-generation error and drops what there was,
    /// and a generation that has ended stays as it is.
    pub open spec fn leads_to(self, reply: KeyPairReply, next: Keygen) -> bool {
        match self {
            Keygen::AwaitingKem => match reply {
                Ok((public_key, secret_key)) => next matches Keygen::AwaitingSignature(kem)
                    && kem@ == (KeyPairView { public_key: public_key@, secret_key: secret_key@ }),
                Err(fault) => next matches Keygen::Failed(e) && e@ == (
                    ErrorKind::KeyGeneration,
                    fault.detail(),
                ),
            },
            Keygen::AwaitingSignature(kem) => match reply {
                Ok((public_key, secret_key)) => next matches Keygen::Done(credentials)
                    && credentials@ == (DeviceCredentialsView {
                    kyber_public_key: kem.public_key@,
                    kyber_secret_key: kem.secret_key@,
                    dilithium_public_key: public_key@,
                    dilithium_secret_key: secret_key@,
                }),
                Err(fault) => next matches Keygen::Failed(e) && e@ == (
                    ErrorKind::KeyGeneration,
                    fault.detail(),
                ),
            },
            Keygen::Done(_) => next == self,
            Keygen::Failed(_) => next == self,
        }
    }

    /// A generation at its beginning.
    pub fn start() -> (state: Keygen)
        ensures
            state is AwaitingKem,
    {
        Keygen::AwaitingKem
    }

    /// What to ask of the provider next.
    pub fn action(&self) -> (action: KeygenAction)
        ensures
            action == self.next_action(),
    {
        match self {
            Keygen::AwaitingKem => KeygenAction::KemKeyPair,
            Keygen::AwaitingSignature(_) => KeygenAction::SignatureKeyPair,
            Keygen::Done(_) => KeygenAction::Finished,
            Keygen::Failed(_) => KeygenAction::Finished,
        }
    }

    /// Takes the provider's answer to the request that `action` named. After
    /// a fault nothing more is asked of the provider.
    pub fn supply(self, reply: KeyPairReply) -> (next: Keygen)
        ensures
            self.leads_to(reply, next),
            reply is Err ==> next.next_action() == KeygenAction::Finished,
    {
        match self {
            Keygen::AwaitingKem => match kem::generate_keypair(reply) {
                Ok(kem_keys) => Keygen::AwaitingSignature(kem_keys),
                Err(e) => Keygen::Failed(e),
            },
            Keygen::AwaitingSignature(kem_keys) => match sign::generate_keypair(reply) {
                Ok(signature_keys) => Keygen::Done(
                    DeviceCredentials::from_key_pairs(kem_keys, signature_keys),
                ),
                Err(e) => Keygen::Failed(e),
            },
            Keygen::Done(credentials) => Keygen::Done(credentials),
            Keygen::Failed(e) => Keygen::Failed(e),
        }
    }

    /// The end of the generation: the credentials or the error, and nothing
    /// while a key pair is still awaited.
    pub fn finish(self) -> (r: Option<Result<DeviceCredentials, PqcError>>)
        ensures
            match r {
                Some(ended) => self.ended() == Some(credentials_outcome(ended)),
                None => self.ended() is None,
            },
    {
        match self {
            Keygen::AwaitingKem => None,
            Keygen::AwaitingSignature(_) => None,
            Keygen::Done(credentials) => Some(Ok(credentials)),
            Keygen::Failed(e) => Some(Err(e)),
        }
    }
}

impl DeviceCredentials {
    /// The credentials made of a KEM key pair and a signature key pair.
    pub fn from_key_pairs(
        kem_keys: KyberKeyPair,
        signature_keys: DilithiumKeyPair,
    ) -> (credentials: DeviceCredentials)
        ensures
            credentials@ == (DeviceCredentialsView {
                kyber_public_key: kem_keys@.public_key,
                kyber_secret_key: kem_keys@.secret_key,
                dilithium_public_key: signature_keys@.public_key,
                dilithium_secret_key: signature_keys@.secret_key,
            }),
    {
        DeviceCredentials {
            kyber_public_key: kem_keys.public_key,
            kyber_secret_key: kem_keys.secret_key,
            dilithium_public_key: signature_keys.public_key,
            dilithium_secret_key: signature_keys.secret_key,
        }
    }

    /// Generates the credentials of a device from what the provider answered
    /// to the request for a KEM key pair and to the request for a signature
    /// key pair. The result is `generated` of the two: where the KEM answer
    /// is a fault the signature answer is not looked at, and where either is
    /// a fault no key comes back.
    pub fn generate(
        kem_keys: KeyPairReply,
        signature_keys: KeyPairReply,
    ) -> (r: Result<DeviceCredentials, PqcError>)
        ensures
            credentials_outcome(r) == generated(kem_keys, signature_keys),
    {
        let kem_pair = kem::generate_keypair(kem_keys)?;
        let signature_pair = sign::generate_keypair(signature_keys)?;
        Ok(DeviceCredentials::from_key_pairs(kem_pair, signature_pair))
    }
}

} // verus!
