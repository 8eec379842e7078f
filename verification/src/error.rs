//! The error taxonomy of the pipeline. Every failure is reported as one
//! of these categories; nothing is silently swallowed and no fallback
//! image is served.

use vstd::prelude::*;

verus! {

/// The caller-facing error categories of the pipeline.
#[derive(Clone, Copy, Debug, PartialEq, Eq, Structural)]
pub enum ServeError {
    /// The request itself is bad: width + height exceeds the maximum, or
    /// the (subject, kind) pair has no catalog entries. Reported before
    /// any image work.
    InvalidInput,
    /// The source image is missing, unreadable or corrupt.
    DecodeError,
    /// The output image could not be produced.
    EncodeError,
    /// The output bytes could not be persisted.
    WriteError,
    /// An image-library-level limit or unsupported parameter combination
    /// surfaced during decode or encode.
    UnsupportedOperation,
}

impl ServeError {
    /// A short stable name for the category, for logs and responses.
    pub fn describe(self) -> (r: &'static str)
        ensures
            r@ == self.spec_describe(),
    {
        match self {
            ServeError::InvalidInput => "invalid input",
            ServeError::DecodeError => "decode error",
            ServeError::EncodeError => "encode error",
            ServeError::WriteError => "write error",
            ServeError::UnsupportedOperation => "unsupported operation",
        }
    }

    /// The short stable name of the category.
    pub open spec fn spec_describe(self) -> Seq<char> {
        match self {
            ServeError::InvalidInput => "invalid input"@,
            ServeError::DecodeError => "decode error"@,
            ServeError::EncodeError => "encode error"@,
            ServeError::WriteError => "write error"@,
            ServeError::UnsupportedOperation => "unsupported operation"@,
        }
    }
}

} // verus!
