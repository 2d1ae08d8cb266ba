//! Errors of the session layer.
//!
//! Whatever the native engine reports is wrapped unchanged. Three errors are
//! made by this layer itself and are distinct from every engine error.

use vstd::prelude::*;
use vstd::std_specs::convert::FromSpecImpl;

verus! {

/// The status with which the engine says that a session holds no credential
/// of the kind asked for.
pub const NO_CREDENTIALS: i32 = -2146893042;

/// A failure as the native engine reported it.
#[derive(Clone, Debug, PartialEq, Eq)]
pub struct NativeError {
    /// The engine's status code, where it gave one.
    pub code: Option<i32>,
    /// The engine's description of the failure.
    pub message: String,
}

impl NativeError {
    /// Whether the engine says that no credential is present.
    pub open spec fn no_credentials(&self) -> bool {
        self.code == Some(NO_CREDENTIALS)
    }

    /// Tells whether the engine says that no credential is present, which is
    /// an answer and not a failure of the query.
    pub fn is_no_credentials(&self) -> (absent: bool)
        ensures
            absent == self.no_credentials(),
    {
        match self.code {
            Some(code) => code == NO_CREDENTIALS,
            None => false,
        }
    }
}

/// What went wrong.
#[derive(Clone, Debug, PartialEq, Eq)]
pub enum ErrorKind {
    /// The native engine refused or failed; its report is kept as the cause.
    Native(NativeError),
    /// No entry of the archive has a usable private key.
    NoIdentity,
    /// The PEM input is not UTF-8 text.
    InvalidPem,
    /// Platform validation passed, but no certificate of the chain is one of
    /// the caller-supplied roots.
    NoCallerRoot,
}

/// An error of the session layer.
#[derive(Clone, Debug, PartialEq, Eq)]
pub struct Error(pub ErrorKind);

impl Error {
    /// The description of the error.
    pub open spec fn text(&self) -> Seq<char> {
        match self.0 {
            ErrorKind::Native(e) => e.message@,
            ErrorKind::NoIdentity => "No identity found in PKCS #12 archive"@,
            ErrorKind::InvalidPem => "PEM representation contains non-UTF-8 bytes"@,
            ErrorKind::NoCallerRoot => "unable to find any user-specified roots in the final cert chain"@,
        }
    }

    /// Whether the error was made by this layer, on input it rejects.
    pub open spec fn invalid_input(&self) -> bool {
        self.0 is NoIdentity || self.0 is InvalidPem
    }

    /// Returns the description of the error: the engine's own for an engine
    /// error, a fixed text for the others.
    pub fn message(&self) -> (text: String)
        ensures
            text@ == self.text(),
    {
        match &self.0 {
            ErrorKind::Native(e) => e.message.clone(),
            ErrorKind::NoIdentity => "No identity found in PKCS #12 archive".to_owned(),
            ErrorKind::InvalidPem => "PEM representation contains non-UTF-8 bytes".to_owned(),
            ErrorKind::NoCallerRoot => "unable to find any user-specified roots in the final cert chain".to_owned(),
        }
    }

    /// Returns the engine's status code, if the engine made the error and gave
    /// one.
    pub fn code(&self) -> (code: Option<i32>)
        ensures
            code == match self.0 {
                ErrorKind::Native(e) => e.code,
                _ => None,
            },
    {
        match &self.0 {
            ErrorKind::Native(e) => e.code,
            _ => None,
        }
    }
}

impl From<NativeError> for Error {
    fn from(error: NativeError) -> (wrapped: Error) {
        Error(ErrorKind::Native(error))
    }
}

impl FromSpecImpl<NativeError> for Error {
    open spec fn obeys_from_spec() -> bool {
        true
    }

    open spec fn from_spec(error: NativeError) -> Error {
        Error(ErrorKind::Native(error))
    }
}

} // verus!
