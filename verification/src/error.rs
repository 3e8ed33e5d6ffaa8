//! The error taxonomy: opaque system errors, the permission mismatch that is
//! detected before any platform call, and the exhausted placement retry budget.

use vstd::prelude::*;

verus! {

/// What sort of failure an [`Error`] reports.
#[derive(Clone, Copy, Debug, PartialEq, Eq, Structural)]
pub enum ErrorKind {
    /// The platform reported a failure; the code carries its error number.
    System,
    /// A permission mismatch was recognized before any platform call was made.
    AccessDenied,
    /// The contiguous-placement protocol exhausted its retry budget; the code
    /// carries the error number of the last failed attempt.
    RaceCondition,
}

/// The error returned by every fallible operation of this library.
#[derive(Clone, Copy, Debug, PartialEq, Eq, Structural)]
pub struct Error {
    pub kind: ErrorKind,
    pub code: i32,
}

impl Error {
    /// An opaque platform failure carrying the platform's error number.
    pub fn system(code: i32) -> (r: Error)
        ensures
            r.kind is System,
            r.code == code,
    {
        Error { kind: ErrorKind::System, code }
    }

    /// The permission mismatch detected before any platform call; it carries
    /// no platform error number.
    pub fn access_denied() -> (r: Error)
        ensures
            r.kind is AccessDenied,
            r.code == 0,
    {
        Error { kind: ErrorKind::AccessDenied, code: 0 }
    }

    /// The placement retry budget ran out; `code` is the error number of the
    /// last attempt.
    pub fn race_condition(code: i32) -> (r: Error)
        ensures
            r.kind is RaceCondition,
            r.code == code,
    {
        Error { kind: ErrorKind::RaceCondition, code }
    }

    /// Whether this error is the recognized permission mismatch, so callers
    /// can branch on it without interpreting platform codes.
    pub fn is_access_denied(&self) -> (r: bool)
        ensures
            r == (self.kind is AccessDenied),
    {
        match self.kind {
            ErrorKind::AccessDenied => true,
            _ => false,
        }
    }

    /// Whether this error reports an exhausted placement retry budget.
    pub fn is_race_condition(&self) -> (r: bool)
        ensures
            r == (self.kind is RaceCondition),
    {
        match self.kind {
            ErrorKind::RaceCondition => true,
            _ => false,
        }
    }
}

} // verus!
