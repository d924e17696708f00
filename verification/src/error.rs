//! The failures a query or a resolution can end in.
//!
//! Transport failures and malformed bodies are carried as plain text; the
//! server's own error envelope is carried with its message.  As in the
//! equality the callers rely on, two transport failures count as equal, and
//! so do two malformed bodies, while error envelopes compare by message.

use vstd::prelude::*;

verus! {

/// A transport-level failure, carried as the text of the underlying error.
#[derive(Debug)]
pub struct HyperError {
    pub message: String,
}

/// A body that parsed as neither the error envelope nor the expected
/// success schema.
#[derive(Debug)]
pub struct SerdeError {
    pub message: String,
}

/// The server's semantic error envelope, with its message.
#[derive(Debug)]
pub struct WikiError {
    pub info: String,
}

/// Every failure a query or a resolution can surface.
#[derive(Debug)]
pub enum Error {
    /// The traversal exhausted the frontier without finding an article.
    NoMembers,
    /// The transport failed before a complete body arrived.
    Hyper(HyperError),
    /// The server answered with an error envelope.
    Wiki(WikiError),
    /// The body matched neither the error envelope nor the success schema.
    Serde(SerdeError),
    /// A category listing entry carried a member-kind tag outside the
    /// known set, with that tag.
    UnknownMemberKind(String),
}

impl Error {
    /// Whether this failure came from the transport.
    pub fn is_hyper(&self) -> (r: bool)
        ensures
            r == (self is Hyper),
    {
        match self {
            Error::Hyper(_) => true,
            _ => false,
        }
    }

    /// Whether this failure is the server's own error envelope.
    pub fn is_wiki(&self) -> (r: bool)
        ensures
            r == (self is Wiki),
    {
        match self {
            Error::Wiki(_) => true,
            _ => false,
        }
    }

    /// Whether this failure is a body that matched no known schema.
    pub fn is_serde(&self) -> (r: bool)
        ensures
            r == (self is Serde),
    {
        match self {
            Error::Serde(_) => true,
            _ => false,
        }
    }
}

impl vstd::std_specs::cmp::PartialEqSpecImpl for Error {
    open spec fn obeys_eq_spec() -> bool {
        true
    }

    open spec fn eq_spec(&self, other: &Error) -> bool {
        match (self, other) {
            (Error::NoMembers, Error::NoMembers) => true,
            (Error::Hyper(_), Error::Hyper(_)) => true,
            (Error::Wiki(a), Error::Wiki(b)) => a.info@ == b.info@,
            (Error::Serde(_), Error::Serde(_)) => true,
            (Error::UnknownMemberKind(a), Error::UnknownMemberKind(b)) => a@ == b@,
            _ => false,
        }
    }
}

impl PartialEq for Error {
    /// Failures compare by variant; envelopes and unknown tags also by
    /// their message, while any two transport failures are equal, as are
    /// any two malformed bodies.
    fn eq(&self, other: &Error) -> (r: bool) {
        match (self, other) {
            (Error::NoMembers, Error::NoMembers) => true,
            (Error::Hyper(_), Error::Hyper(_)) => true,
            (Error::Wiki(a), Error::Wiki(b)) => a.info == b.info,
            (Error::Serde(_), Error::Serde(_)) => true,
            (Error::UnknownMemberKind(a), Error::UnknownMemberKind(b)) => *a == *b,
            _ => false,
        }
    }
}

} // verus!
