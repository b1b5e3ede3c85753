//! The error taxonomy of the facade: a kind that callers can dispatch on,
//! plus a human-readable context string suitable for direct display.

use vstd::prelude::*;

verus! {

/// The kinds of failure a facade operation can report.
#[derive(Clone, Copy, PartialEq, Eq, Structural, Debug)]
pub enum ErrorKind {
    /// The project id is not registered in the project directory.
    NotFound,
    /// The project's on-disk repository is missing or corrupt and could not
    /// be opened.
    OpenFailed,
    /// An operation-specific precondition was violated, e.g. marking a path
    /// resolved that is not in the conflict set.
    DomainError,
    /// The remote rejected the supplied credentials.
    AuthFailed,
    /// The remote could not be reached at the transport level.
    NetworkFailed,
    /// A global-configuration read or write failed (distinct from a key
    /// merely being absent).
    ConfigError,
    /// Anything else, wrapped with a description of the failing step.
    Unexpected,
}

/// A typed failure: a kind plus a context string describing the failing step.
#[derive(Debug)]
pub struct Error {
    pub kind: ErrorKind,
    pub context: String,
}

impl Error {
    /// Build an error of the given kind from a borrowed message.
    pub fn with_context(kind: ErrorKind, message: &str) -> (r: Error)
        ensures
            r.kind == kind,
            r.context@ == message@,
    {
        Error { kind, context: message.to_string() }
    }
}

} // verus!
