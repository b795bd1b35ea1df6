use crate::error::{ErrorKind, Failure, PqcError};
use crate::kem::KeyPairView;
use crate::provider::{BytesReply, KeyPairReply, ProviderFault, VerificationReply};
use vstd::prelude::*;

verus! {

/// A key pair of the signature scheme.
#[derive(Debug, Clone)]
pub struct DilithiumKeyPair {
    pub public_key: Vec<u8>,
    pub secret_key: Vec<u8>,
}

impl View for DilithiumKeyPair {
    type V = KeyPairView;

    open spec fn view(&self) -> KeyPairView {
        KeyPairView { public_key: self.public_key@, secret_key: self.secret_key@ }
    }
}

/// Makes the key pair from what the provider's key generation answered. A
/// fault becomes a key-generation error with the fault's detail.
pub fn generate_keypair(reply: KeyPairReply) -> (r: Result<DilithiumKeyPair, PqcError>)
    ensures
        match reply {
            Ok((public_key, secret_key)) => r matches Ok(pair) && pair@ == (KeyPairView {
                public_key: public_key@,
                secret_key: secret_key@,
            }),
            Err(fault) => r matches Err(e) && e@ == (ErrorKind::KeyGeneration, fault.detail()),
        },
{
    match reply {
        Ok((public_key, secret_key)) => Ok(DilithiumKeyPair { public_key, secret_key }),
        Err(fault) => Err(PqcError::KeyGeneration(fault.into_detail())),
    }
}

/// Hands on what the provider's signing answered: the signature. A fault
/// becomes a signing error with the fault's detail.
pub fn sign(reply: BytesReply) -> (r: Result<Vec<u8>, PqcError>)
    ensures
        match reply {
            Ok(signature) => r matches Ok(bytes) && bytes@ == signature@,
            Err(fault) => r matches Err(e) && e@ == (ErrorKind::Signing, fault.detail()),
        },
{
    match reply {
        Ok(signature) => Ok(signature),
        Err(fault) => Err(PqcError::Signing(fault.into_detail())),
    }
}

/// What a verification gives, from what the provider answered. A signature
/// that the provider rejected is the ordinary outcome `false`, and so is one
/// that the provider did not take for its length: neither can hold. Any other
/// fault, a public key of the wrong length among them, is a verification
/// error.
pub open spec fn verified(reply: VerificationReply) -> Result<bool, Failure> {
    match reply {
        Ok(check) => Ok(check is Ok),
        Err(ProviderFault::SignatureLength) => Ok(false),
        Err(fault) => Err((ErrorKind::Verification, fault.detail())),
    }
}

/// How a verification ended: whether the signature holds, or the class and
/// the detail of the error.
pub open spec fn verification_outcome(r: Result<bool, PqcError>) -> Result<bool, Failure> {
    match r {
        Ok(holds) => Ok(holds),
        Err(e) => Err(e@),
    }
}

/// Whether a signature holds, from what the provider's verification answered:
/// `verified` of the answer. Only material that the provider cannot use, other
/// than the signature itself, is an error.
pub fn verify(reply: VerificationReply) -> (r: Result<bool, PqcError>)
    ensures
        verification_outcome(r) == verified(reply),
{
    match reply {
        Ok(Ok(_)) => Ok(true),
        Ok(Err(_)) => Ok(false),
        Err(ProviderFault::SignatureLength) => Ok(false),
        Err(fault) => Err(PqcError::Verification(fault.into_detail())),
    }
}

} // verus!
