use sha2::{Digest, Sha256};
use vstd::prelude::*;

verus! {

/// The SHA-256 digest of a byte string: 32 bytes that depend on the input
/// bytes and on nothing else.
pub uninterp spec fn sha256(data: Seq<u8>) -> Seq<u8>;

/// Hashes `data` with `Sha256::digest` of the `sha2` crate, which feeds the
/// whole input to a fresh hasher and finalizes it. The contract names the
/// result; the 32 bytes of length are in the type.
#[verifier::external_body]
pub(crate) fn sha256_digest(data: &[u8]) -> (digest: [u8; 32])
    ensures
        digest@ == sha256(data@),
{
    Sha256::digest(data).into()
}

} // verus!
