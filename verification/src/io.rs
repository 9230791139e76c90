//! The failures of reads and writes that the library's decisions depend on,
//! held as plain values.

use vstd::prelude::*;

verus! {

/// The kinds of I/O failure the library tells apart.
#[derive(Debug, Clone, Copy, PartialEq, Eq, Structural)]
pub enum IoErrorKind {
    /// An entity was not found.
    NotFound,
    /// A parameter was incorrect.
    InvalidInput,
    /// The reading end of a pipe went away.
    BrokenPipe,
    /// Any other kind of failure.
    Other,
}

/// A failed read or write: its kind and its message.
#[derive(Debug, Clone, PartialEq, Eq)]
pub struct IoFailure {
    /// What kind of failure this is.
    pub kind: IoErrorKind,
    /// The failure's message, as the error displays it.
    pub message: String,
}

impl IoFailure {
    /// A failure of `kind` that displays as `message`.
    pub fn new(kind: IoErrorKind, message: String) -> (f: Self)
        ensures
            f.kind == kind,
            f.message == message,
    {
        IoFailure { kind, message }
    }

    /// The kind of this failure.
    pub fn kind(&self) -> (k: IoErrorKind)
        ensures
            k == self.kind,
    {
        self.kind
    }
}

} // verus!
