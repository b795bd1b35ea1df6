use crate::error::{ErrorKind, PqcError};
use crate::provider::{BytesReply, EncapsulationReply, KeyPairReply};
use vstd::prelude::*;

verus! {

/// A key pair of the key-encapsulation mechanism.
#[derive(Debug, Clone)]
pub struct KyberKeyPair {
    pub public_key: Vec<u8>,
    pub secret_key: Vec<u8>,
}

/// A key pair as two byte strings.
pub struct KeyPairView {
    pub public_key: Seq<u8>,
    pub secret_key: Seq<u8>,
}

impl View for KyberKeyPair {
    type V = KeyPairView;

    open spec fn view(&self) -> KeyPairView {
        KeyPairView { public_key: self.public_key@, secret_key: self.secret_key@ }
    }
}

/// Makes the key pair from what the provider's key generation answered. A
/// fault becomes a key-generation error with the fault's detail.
pub fn generate_keypair(reply: KeyPairReply) -> (r: Result<KyberKeyPair, PqcError>)
    ensures
        match reply {
            Ok((public_key, secret_key)) => r matches Ok(pair) && pair@ == (KeyPairView {
                public_key: public_key@,
                secret_key: secret_key@,
            }),
            Err(fault) => r matches Err(e) && e@ == (ErrorKind::KeyGeneration, fault.detail()),
        },
{
    match reply {
        Ok((public_key, secret_key)) => Ok(KyberKeyPair { public_key, secret_key }),
        Err(fault) => Err(PqcError::KeyGeneration(fault.into_detail())),
    }
}

/// Hands on what the provider's encapsulation answered: the ciphertext and
/// the shared secret. A fault becomes an encryption error with the fault's
/// detail.
pub fn encapsulate(reply: EncapsulationReply) -> (r: Result<(Vec<u8>, Vec<u8>), PqcError>)
    ensures
        match reply {
            Ok((ciphertext, shared_secret)) => r matches Ok(pair) && pair.0@ == ciphertext@
                && pair.1@ == shared_secret@,
            Err(fault) => r matches Err(e) && e@ == (ErrorKind::Encryption, fault.detail()),
        },
{
    match reply {
        Ok((ciphertext, shared_secret)) => Ok((ciphertext, shared_secret)),
        Err(fault) => Err(PqcError::Encryption(fault.into_detail())),
    }
}

/// Hands on what the provider's decapsulation answered: the shared secret. A
/// fault becomes a decryption error with the fault's detail.
pub fn decapsulate(reply: BytesReply) -> (r: Result<Vec<u8>, PqcError>)
    ensures
        match reply {
            Ok(shared_secret) => r matches Ok(secret) && secret@ == shared_secret@,
            Err(fault) => r matches Err(e) && e@ == (ErrorKind::Decryption, fault.detail()),
        },
{
    match reply {
        Ok(shared_secret) => Ok(shared_secret),
        Err(fault) => Err(PqcError::Decryption(fault.into_detail())),
    }
}

} // verus!
