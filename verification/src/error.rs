//! The failure surface of a decode operation.

use vstd::prelude::*;

verus! {

/// Why a decode operation failed.
///
/// Decoding is all-or-nothing: the first failing child decode aborts the
/// whole operation and its error is forwarded unchanged.  Encoding of valid
/// in-memory values never fails.
#[derive(Clone, Copy, Debug, PartialEq, Eq, Structural)]
pub enum DecodeError {
    /// A fixed-width read, a length-prefixed read or a count-driven loop
    /// needed more bytes than remained in the input.
    UnexpectedEof,
    /// An out-of-domain value was read: a boolean byte outside {0, 1}, an
    /// unrecognized tagged-union discriminant, or malformed UTF-8 text.
    InvalidData,
}

impl DecodeError {
    /// A human-readable description of the failure category.
    pub fn message(&self) -> (s: String)
        ensures
            *self is UnexpectedEof ==> s@ == "unexpected end of input"@,
            *self is InvalidData ==> s@ == "invalid data"@,
    {
        match self {
            DecodeError::UnexpectedEof => "unexpected end of input".to_owned(),
            DecodeError::InvalidData => "invalid data".to_owned(),
        }
    }
}

} // verus!
