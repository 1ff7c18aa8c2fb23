//! The error taxonomy shared by every public operation of the service.

use vstd::prelude::*;

verus! {

/// The kind of a service failure.
#[derive(Clone, Copy, Debug, PartialEq, Eq, Structural)]
pub enum ErrorKind {
    /// A malformed input, such as a disk spec naming both an image and
    /// partitions, or an unsupported partition type.
    ArgumentError,
    /// The calling identity lacks a required capability.
    PermissionDenied,
    /// The operation is invalid in the current lifecycle or payload state.
    IllegalState,
    /// The guest context identifier space is exhausted.
    ResourceExhausted,
    /// A file or image operation failed.
    IOFailure,
    /// No live instance carries the given guest context identifier.
    NotFound,
    /// An internal invariant was violated.
    Internal,
}

/// A structured failure: a kind together with a human-readable message.
#[derive(Debug)]
pub struct ServiceError {
    /// What went wrong, by category.
    pub kind: ErrorKind,
    /// A description for logs and remote callers.
    pub message: String,
}

impl ServiceError {
    /// Build an error of the given kind with the given message.
    pub fn new(kind: ErrorKind, message: &str) -> (r: ServiceError)
        ensures
            r.kind == kind,
            r.message@ == message@,
    {
        ServiceError { kind, message: message.to_owned() }
    }
}

} // verus!
