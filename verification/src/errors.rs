//! The errors that this crate reports.

use vstd::prelude::*;

verus! {

/// What went wrong.
#[derive(Debug, PartialEq)]
pub enum ErrorKind {
    /// A frame ended before the given number of bytes could be read.
    LengthTooShort(usize),
    /// A failure that is described in words.
    WithDescription(&'static str),
}

/// The error type of this crate.
#[derive(Debug, PartialEq)]
pub struct RSocketError {
    pub kind: ErrorKind,
}

/// The result type of this crate.
pub type RSocketResult<T> = Result<T, RSocketError>;

impl From<ErrorKind> for RSocketError {
    fn from(kind: ErrorKind) -> (e: RSocketError) {
        RSocketError { kind }
    }
}

impl vstd::std_specs::convert::FromSpecImpl<ErrorKind> for RSocketError {
    open spec fn obeys_from_spec() -> bool {
        true
    }

    open spec fn from_spec(kind: ErrorKind) -> RSocketError {
        RSocketError { kind }
    }
}

} // verus!
