//! The failures that encoding and decoding report.

use vstd::prelude::*;

verus! {

/// What went wrong, in broad terms.
#[derive(Debug, Clone, Copy, PartialEq, Eq, Structural)]
pub enum ErrorKind {
    /// The bytes do not form a value, or do not match their checksum.
    InvalidData,
    /// The stream ended in the middle of a value.
    UnexpectedEof,
    /// A writer accepted none of the bytes it was given.
    WriteZero,
    /// A failure of the stream itself.
    Other,
}

/// A failure, with a message for people to read.
#[derive(Debug)]
pub struct Error {
    pub kind: ErrorKind,
    pub message: String,
}

impl Error {
    /// An error of the given kind that carries `message`.
    pub fn new(kind: ErrorKind, message: String) -> (e: Self)
        ensures
            e.kind == kind,
            e.message == message,
    {
        Error { kind, message }
    }

    /// The kind of this error.
    pub fn kind(&self) -> (k: ErrorKind)
        ensures
            k == self.kind,
    {
        self.kind
    }

    /// The message of this error.
    pub fn to_string(&self) -> (s: String)
        ensures
            s@ == self.message@,
    {
        self.message.clone()
    }
}

impl Clone for Error {
    fn clone(&self) -> (e: Self)
        ensures
            e.kind == self.kind,
            e.message@ == self.message@,
    {
        Error { kind: self.kind, message: self.message.clone() }
    }
}

} // verus!
