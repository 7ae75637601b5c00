//! Errors of the typed store: what went wrong, and at which layer.

use bincode::ErrorKind as CodecFailure;
use sled::Error as StoreFailure;
use vstd::prelude::*;
use vstd::std_specs::convert::FromSpecImpl;

verus! {

/// `sled::Error`, the failure of a raw call on the byte-store. The library
/// only carries it: nothing is known of what it holds.
#[verifier::external_type_specification]
#[verifier::external_body]
pub struct ExStoreFailure(StoreFailure);

/// `bincode::ErrorKind`, which `bincode::Error` boxes: the failure of an
/// encoding or a decoding. The library only carries it: nothing is known of
/// what it holds.
#[verifier::external_type_specification]
#[verifier::external_body]
pub struct ExCodecFailure(CodecFailure);

/// The text that `Display` gives for a `sled::Error`. Nothing is promised of
/// it.
#[verifier::external_body]
fn store_failure_text(failure: &StoreFailure) -> String {
    format!("{}", failure)
}

/// The text that `Display` gives for a `bincode::ErrorKind`. Nothing is
/// promised of it.
#[verifier::external_body]
fn codec_failure_text(failure: &CodecFailure) -> String {
    format!("{}", failure)
}

/// The kind of an error that may happen handling storage.
#[derive(Debug)]
#[non_exhaustive]
pub enum ErrorKind {
    /// The byte-store failed a raw call.
    Sled(StoreFailure),
    /// A value could not be encoded, or bytes could not be decoded.
    Serde(Box<CodecFailure>),
    /// A failure of the caller's own, kept by its message.
    Custom(String),
}

impl ErrorKind {
    /// The message of the failure underneath. For a custom failure it is the
    /// message that the caller gave.
    pub fn message(&self) -> (text: String)
        ensures
            (self matches ErrorKind::Custom(given) ==> text@ == given@),
    {
        match self {
            ErrorKind::Sled(failure) => store_failure_text(failure),
            ErrorKind::Serde(failure) => codec_failure_text(failure),
            ErrorKind::Custom(given) => given.clone(),
        }
    }
}

impl From<Box<CodecFailure>> for ErrorKind {
    fn from(error: Box<CodecFailure>) -> (kind: Self) {
        ErrorKind::Serde(error)
    }
}

impl FromSpecImpl<Box<CodecFailure>> for ErrorKind {
    open spec fn obeys_from_spec() -> bool {
        true
    }

    open spec fn from_spec(error: Box<CodecFailure>) -> Self {
        ErrorKind::Serde(error)
    }
}

impl From<StoreFailure> for ErrorKind {
    fn from(error: StoreFailure) -> (kind: Self) {
        ErrorKind::Sled(error)
    }
}

impl FromSpecImpl<StoreFailure> for ErrorKind {
    open spec fn obeys_from_spec() -> bool {
        true
    }

    open spec fn from_spec(error: StoreFailure) -> Self {
        ErrorKind::Sled(error)
    }
}

impl From<String> for ErrorKind {
    fn from(message: String) -> (kind: Self) {
        ErrorKind::Custom(message)
    }
}

impl FromSpecImpl<String> for ErrorKind {
    open spec fn obeys_from_spec() -> bool {
        true
    }

    open spec fn from_spec(message: String) -> Self {
        ErrorKind::Custom(message)
    }
}

/// An error that may happen handling storage.
#[derive(Debug)]
pub struct Error {
    /// Kind of the error, boxed to keep the error itself one pointer wide.
    kind: Box<ErrorKind>,
}

impl View for Error {
    type V = ErrorKind;

    /// An error is known by its kind.
    closed spec fn view(&self) -> ErrorKind {
        *self.kind
    }
}

impl Error {
    /// Creates an error from its kind.
    pub fn new(kind: ErrorKind) -> (error: Self)
        ensures
            error@ == kind,
    {
        Self { kind: Box::new(kind) }
    }

    /// Returns the kind of the error.
    pub fn kind(&self) -> (kind: &ErrorKind)
        ensures
            *kind == self@,
    {
        &*self.kind
    }

    /// Takes the kind out of the error.
    pub fn into_kind(self) -> (kind: ErrorKind)
        ensures
            kind == self@,
    {
        *self.kind
    }

    /// The message of the failure underneath, as `ErrorKind::message` gives
    /// it.
    pub fn message(&self) -> (text: String)
        ensures
            (self@ matches ErrorKind::Custom(given) ==> text@ == given@),
    {
        self.kind.message()
    }
}

impl From<ErrorKind> for Error {
    fn from(kind: ErrorKind) -> (error: Self)
        ensures
            error@ == kind,
    {
        Self::new(kind)
    }
}

impl FromSpecImpl<ErrorKind> for Error {
    open spec fn obeys_from_spec() -> bool {
        true
    }

    closed spec fn from_spec(kind: ErrorKind) -> Self {
        Error { kind: Box::new(kind) }
    }
}

impl From<Box<CodecFailure>> for Error {
    fn from(error: Box<CodecFailure>) -> (made: Self)
        ensures
            made@ == ErrorKind::Serde(error),
    {
        Self::new(ErrorKind::Serde(error))
    }
}

impl FromSpecImpl<Box<CodecFailure>> for Error {
    open spec fn obeys_from_spec() -> bool {
        true
    }

    closed spec fn from_spec(error: Box<CodecFailure>) -> Self {
        Error { kind: Box::new(ErrorKind::Serde(error)) }
    }
}

impl From<StoreFailure> for Error {
    fn from(error: StoreFailure) -> (made: Self)
        ensures
            made@ == ErrorKind::Sled(error),
    {
        Self::new(ErrorKind::Sled(error))
    }
}

impl FromSpecImpl<StoreFailure> for Error {
    open spec fn obeys_from_spec() -> bool {
        true
    }

    closed spec fn from_spec(error: StoreFailure) -> Self {
        Error { kind: Box::new(ErrorKind::Sled(error)) }
    }
}

impl From<String> for Error {
    fn from(message: String) -> (made: Self)
        ensures
            made@ == ErrorKind::Custom(message),
    {
        Self::new(ErrorKind::Custom(message))
    }
}

impl FromSpecImpl<String> for Error {
    open spec fn obeys_from_spec() -> bool {
        true
    }

    closed spec fn from_spec(message: String) -> Self {
        Error { kind: Box::new(ErrorKind::Custom(message)) }
    }
}

} // verus!
