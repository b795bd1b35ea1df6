use vstd::prelude::*;

verus! {

/// The class of a failure, without its detail text.
#[derive(Clone, Copy, Debug, PartialEq, Eq, Structural)]
pub enum ErrorKind {
    KeyGeneration,
    Encryption,
    Decryption,
    Signing,
    Verification,
    InvalidInput,
    Io,
    InvalidKey,
}

/// A failure of one of the library's operations. Each variant carries the
/// detail text that says what went wrong.
#[derive(Debug)]
pub enum PqcError {
    KeyGeneration(String),
    Encryption(String),
    Decryption(String),
    Signing(String),
    Verification(String),
    InvalidInput(String),
    Io(String),
    InvalidKey(String),
}

/// An error as contracts speak of it: its class and its detail text.
pub type Failure = (ErrorKind, Seq<char>);

/// The text that introduces a failure of the given class.
pub open spec fn kind_prefix(kind: ErrorKind) -> Seq<char> {
    match kind {
        ErrorKind::KeyGeneration => "Key generation failed: "@,
        ErrorKind::Encryption => "Encryption failed: "@,
        ErrorKind::Decryption => "Decryption failed: "@,
        ErrorKind::Signing => "Signature generation failed: "@,
        ErrorKind::Verification => "Signature verification failed: "@,
        ErrorKind::InvalidInput => "Invalid input: "@,
        ErrorKind::Io => "I/O error: "@,
        ErrorKind::InvalidKey => "Invalid key: "@,
    }
}

impl View for PqcError {
    type V = Failure;

    /// An error is its class together with its detail text.
    open spec fn view(&self) -> Failure {
        match self {
            PqcError::KeyGeneration(d) => (ErrorKind::KeyGeneration, d@),
            PqcError::Encryption(d) => (ErrorKind::Encryption, d@),
            PqcError::Decryption(d) => (ErrorKind::Decryption, d@),
            PqcError::Signing(d) => (ErrorKind::Signing, d@),
            PqcError::Verification(d) => (ErrorKind::Verification, d@),
            PqcError::InvalidInput(d) => (ErrorKind::InvalidInput, d@),
            PqcError::Io(d) => (ErrorKind::Io, d@),
            PqcError::InvalidKey(d) => (ErrorKind::InvalidKey, d@),
        }
    }
}

/// How an operation that gives bytes ended: the bytes, or the class and the
/// detail of the error.
pub open spec fn outcome(r: Result<Vec<u8>, PqcError>) -> Result<Seq<u8>, Failure> {
    match r {
        Ok(bytes) => Ok(bytes@),
        Err(e) => Err(e@),
    }
}

impl PqcError {
    /// Builds the error of the given class with the given detail text.
    pub fn new(kind: ErrorKind, detail: String) -> (e: PqcError)
        ensures
            e@ == (kind, detail@),
    {
        match kind {
            ErrorKind::KeyGeneration => PqcError::KeyGeneration(detail),
            ErrorKind::Encryption => PqcError::Encryption(detail),
            ErrorKind::Decryption => PqcError::Decryption(detail),
            ErrorKind::Signing => PqcError::Signing(detail),
            ErrorKind::Verification => PqcError::Verification(detail),
            ErrorKind::InvalidInput => PqcError::InvalidInput(detail),
            ErrorKind::Io => PqcError::Io(detail),
            ErrorKind::InvalidKey => PqcError::InvalidKey(detail),
        }
    }

    /// The class of this error.
    pub fn kind(&self) -> (k: ErrorKind)
        ensures
            k == self@.0,
    {
        match self {
            PqcError::KeyGeneration(_) => ErrorKind::KeyGeneration,
            PqcError::Encryption(_) => ErrorKind::Encryption,
            PqcError::Decryption(_) => ErrorKind::Decryption,
            PqcError::Signing(_) => ErrorKind::Signing,
            PqcError::Verification(_) => ErrorKind::Verification,
            PqcError::InvalidInput(_) => ErrorKind::InvalidInput,
            PqcError::Io(_) => ErrorKind::Io,
            PqcError::InvalidKey(_) => ErrorKind::InvalidKey,
        }
    }

    /// The detail text of this error.
    pub fn detail(&self) -> (d: &str)
        ensures
            d@ == self@.1,
    {
        match self {
            PqcError::KeyGeneration(d) => d.as_str(),
            PqcError::Encryption(d) => d.as_str(),
            PqcError::Decryption(d) => d.as_str(),
            PqcError::Signing(d) => d.as_str(),
            PqcError::Verification(d) => d.as_str(),
            PqcError::InvalidInput(d) => d.as_str(),
            PqcError::Io(d) => d.as_str(),
            PqcError::InvalidKey(d) => d.as_str(),
        }
    }

    /// The full message of this error: the text that introduces its class,
    /// followed by the detail.
    pub fn message(&self) -> (m: String)
        ensures
            m@ == kind_prefix(self@.0) + self@.1,
    {
        let prefix: &str = match self.kind() {
            ErrorKind::KeyGeneration => "Key generation failed: ",
            ErrorKind::Encryption => "Encryption failed: ",
            ErrorKind::Decryption => "Decryption failed: ",
            ErrorKind::Signing => "Signature generation failed: ",
            ErrorKind::Verification => "Signature verification failed: ",
            ErrorKind::InvalidInput => "Invalid input: ",
            ErrorKind::Io => "I/O error: ",
            ErrorKind::InvalidKey => "Invalid key: ",
        };
        let mut m = String::from_str(prefix);
        m.append(self.detail());
        m
    }
}

} // verus!
