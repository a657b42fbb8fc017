//! The error type shared by every service of the engine.

use vstd::prelude::*;

verus! {

/// Why a service call did not go through.
#[derive(Debug, Clone, Copy, PartialEq, Eq, Structural)]
pub enum Error {
    /// The page, revision or blob that the call names does not exist.
    NotFound,
    /// The revision number is taken already, or the target slug is occupied.
    Conflict,
    /// The previous revision that a caller handed in belongs to another
    /// page or site than the one it names: a mistake of the caller.
    InvariantViolation,
    /// The job queue holds as many jobs as it may: try again later.
    QueueFull,
    /// The request is malformed.
    BadRequest,
    /// The store cannot take another record: a revision number or a
    /// revision identifier has reached the end of its range.
    Storage,
}

impl Error {
    /// Whether a caller may repeat the call later and expect it to succeed.
    pub fn is_recoverable(&self) -> (r: bool)
        ensures
            r == (*self == Error::QueueFull),
    {
        match self {
            Error::QueueFull => true,
            _ => false,
        }
    }
}

} // verus!
