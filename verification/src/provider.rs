use vstd::prelude::*;

verus! {

/// Why a call to the cryptographic provider gave no result.
#[derive(Debug)]
pub enum ProviderFault {
    /// The provider reported a failure; the text is its own account of it.
    Reported(String),
    /// The provider did not take the public key: its length is not the
    /// algorithm's.
    PublicKeyLength,
    /// The provider did not take the secret key: its length is not the
    /// algorithm's.
    SecretKeyLength,
    /// The provider did not take the ciphertext: its length is not the
    /// algorithm's.
    CiphertextLength,
    /// The provider did not take the signature: it is longer than the
    /// algorithm allows, so it can hold for no message.
    SignatureLength,
}

/// What the provider answers to a request for a key pair: the public key,
/// then the secret key.
pub type KeyPairReply = Result<(Vec<u8>, Vec<u8>), ProviderFault>;

/// What the provider answers to an encapsulation: the ciphertext, then the
/// shared secret.
pub type EncapsulationReply = Result<(Vec<u8>, Vec<u8>), ProviderFault>;

/// What the provider answers to a request for bytes: a shared secret or a
/// signature.
pub type BytesReply = Result<Vec<u8>, ProviderFault>;

/// What the provider answers to a verification. The inner value says
/// whether the signature holds: `Ok` where the provider accepted it, `Err`
/// with the provider's account where it did not.
pub type VerificationReply = Result<Result<(), String>, ProviderFault>;

impl ProviderFault {
    /// The detail text that an error made from this fault carries.
    pub open spec fn detail(self) -> Seq<char> {
        match self {
            ProviderFault::Reported(text) => text@,
            ProviderFault::PublicKeyLength => "Invalid public key length"@,
            ProviderFault::SecretKeyLength => "Invalid secret key length"@,
            ProviderFault::CiphertextLength => "Invalid ciphertext length"@,
            ProviderFault::SignatureLength => "Invalid signature length"@,
        }
    }

    /// Turns the fault into its detail text.
    pub fn into_detail(self) -> (text: String)
        ensures
            text@ == self.detail(),
    {
        match self {
            ProviderFault::Reported(text) => text,
            ProviderFault::PublicKeyLength => "Invalid public key length".to_owned(),
            ProviderFault::SecretKeyLength => "Invalid secret key length".to_owned(),
            ProviderFault::CiphertextLength => "Invalid ciphertext length".to_owned(),
            ProviderFault::SignatureLength => "Invalid signature length".to_owned(),
        }
    }
}

} // verus!
