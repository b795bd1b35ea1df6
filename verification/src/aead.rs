use aes_gcm::aead::{Aead, KeyInit};
use aes_gcm::{Aes256Gcm, Key, Nonce};
use rand::Rng;
use vstd::prelude::*;

verus! {

/// The length of an AES-256 key.
pub const KEY_LEN: usize = 32;

/// The length of the nonce that goes before the sealed bytes.
pub const NONCE_LEN: usize = 12;

/// The length of the authentication tag that sealing appends.
pub const TAG_LEN: usize = 16;

/// The longest plaintext that one AES-GCM call may seal: two to the power 36
/// bytes less two blocks, the bound at which its 32-bit block counter is used
/// up.
pub const MAX_PLAINTEXT_LEN: u64 = 0xF_FFFF_FFE0;

/// What AES-256-GCM makes of a plaintext under a 32-byte key and a 12-byte
/// nonce, with no associated data: the ciphertext followed by the tag.
pub uninterp spec fn aes256_gcm_seal(key: Seq<u8>, nonce: Seq<u8>, plaintext: Seq<u8>) -> Seq<u8>;

/// What AES-256-GCM recovers from sealed bytes under a key and a nonce: the
/// plaintext where the tag holds, nothing where it does not.
pub uninterp spec fn aes256_gcm_open(
    key: Seq<u8>,
    nonce: Seq<u8>,
    sealed: Seq<u8>,
) -> Option<Seq<u8>>;

/// Seals `plaintext` with `Aes256Gcm::encrypt` of the `aes-gcm` crate. Within
/// the length bound the call succeeds; its result is the plaintext's length
/// and a tag, and is what `Aes256Gcm::decrypt` takes back to the plaintext
/// under the same key and nonce.
#[verifier::external_body]
pub(crate) fn aes256_gcm_encrypt(
    key: &[u8],
    nonce: &[u8],
    plaintext: &[u8],
) -> (sealed: Option<Vec<u8>>)
    requires
        key@.len() == KEY_LEN,
        nonce@.len() == NONCE_LEN,
        plaintext@.len() <= MAX_PLAINTEXT_LEN,
    ensures
        sealed is Some,
        sealed matches Some(bytes) ==> bytes@ == aes256_gcm_seal(key@, nonce@, plaintext@),
        sealed matches Some(bytes) ==> bytes@.len() == plaintext@.len() + TAG_LEN,
        sealed matches Some(bytes) ==> aes256_gcm_open(key@, nonce@, bytes@) == Some(plaintext@),
{
    let cipher = Aes256Gcm::new(Key::<Aes256Gcm>::from_slice(key));
    cipher.encrypt(Nonce::from_slice(nonce), plaintext).ok()
}

/// Opens `sealed` with `Aes256Gcm::decrypt` of the `aes-gcm` crate. The call
/// gives the plaintext where the tag at the end of `sealed` holds and nothing
/// where it does not, or where there is no room for a tag; a plaintext is a
/// tag shorter than what was sealed.
#[verifier::external_body]
pub(crate) fn aes256_gcm_decrypt(
    key: &[u8],
    nonce: &[u8],
    sealed: &[u8],
) -> (plaintext: Option<Vec<u8>>)
    requires
        key@.len() == KEY_LEN,
        nonce@.len() == NONCE_LEN,
        sealed@.len() <= MAX_PLAINTEXT_LEN + TAG_LEN,
    ensures
        match plaintext {
            Some(bytes) => aes256_gcm_open(key@, nonce@, sealed@) == Some(bytes@) && bytes@.len()
                + TAG_LEN == sealed@.len(),
            None => aes256_gcm_open(key@, nonce@, sealed@) is None,
        },
{
    let cipher = Aes256Gcm::new(Key::<Aes256Gcm>::from_slice(key));
    cipher.decrypt(Nonce::from_slice(nonce), sealed).ok()
}

/// Twelve bytes from the thread's random generator, `rand::thread_rng`, by
/// `Rng::fill`. Nothing is known of them but their number.
#[verifier::external_body]
pub(crate) fn fresh_nonce() -> (nonce: [u8; 12]) {
    let mut nonce = [0u8; 12];
    rand::thread_rng().fill(&mut nonce);
    nonce
}

} // verus!
