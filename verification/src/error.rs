//! The error taxonomy of the library.
//!
//! Callers dispatch on the kind alone; the message carries diagnostics.

use vstd::prelude::*;

verus! {

/// The kind of a failure, without its diagnostic message.
#[derive(Clone, Copy, Debug, PartialEq, Eq, Structural)]
pub enum ErrorKind {
    /// A caller-supplied value was rejected before any side effect.
    Validation,
    /// A removal target is not registered.
    NotFound,
    /// A filesystem read, write or rename failed.
    Io,
    /// An archive header or index could not be read.
    Format,
    /// A remote fetch failed.
    Network,
    /// A listener could not be bound.
    Bind,
    /// The request runtime failed after startup.
    Serve,
}

/// A typed, descriptive error surfaced to the calling application layer.
#[derive(Debug)]
pub struct Error {
    kind: ErrorKind,
    message: String,
}

impl Error {
    /// The kind this error dispatches on.
    pub closed spec fn spec_kind(&self) -> ErrorKind {
        self.kind
    }

    /// The diagnostic message.
    pub closed spec fn spec_message(&self) -> Seq<char> {
        self.message@
    }

    pub fn new(kind: ErrorKind, message: String) -> (r: Error)
        ensures
            r.spec_kind() == kind,
            r.spec_message() == message@,
    {
        Error { kind, message }
    }

    pub fn kind(&self) -> (r: ErrorKind)
        ensures
            r == self.spec_kind(),
    {
        self.kind
    }

    /// A human-readable rendering of this error.
    pub fn message(&self) -> (r: &String)
        ensures
            r@ == self.spec_message(),
    {
        &self.message
    }
}

} // verus!
