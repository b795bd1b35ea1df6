//! Post-quantum identities and entropy delivery for edge devices.
//!
//! The library composes three outside capabilities: a key-encapsulation
//! mechanism and a signature scheme, which a provider runs and whose answers
//! the library takes as plain values (see `provider`), and AES-256-GCM. On
//! top of them stand the sealing of entropy for a device (`api`), the
//! challenge-response authentication (`api`), the generation of device
//! credentials (`api`), and an engine that derives a deterministic stream of
//! entropy from two seeds (`qrng`). `binary_loader` and `binary_analyzer`
//! decode and describe seed and key files.

pub mod aead;
pub mod api;
pub mod binary_analyzer;
pub mod binary_loader;
mod bytes;
pub mod digest;
pub mod error;
pub mod hexcode;
pub mod kem;
pub mod provider;
pub mod qrng;
pub mod sign;
pub mod stream;
pub mod text;

pub use api::{AuthRequest, DeviceCredentials, EncryptedEntropy};
pub use error::{ErrorKind, PqcError};
pub use kem::KyberKeyPair;
pub use sign::DilithiumKeyPair;
