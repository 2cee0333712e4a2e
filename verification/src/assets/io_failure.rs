//! Failures of the file system and of decoding, as plain values.

use vstd::prelude::*;

verus! {

/// The broad kind of a failure.
#[derive(Clone, Copy, PartialEq, Eq, Debug, Structural)]
pub enum IoFailureKind {
    /// A file or directory was not there.
    NotFound,
    /// A file was read but did not hold what was expected of it.
    InvalidData,
    /// Any other failure.
    Other,
}

/// A file that could not be read or decoded.
#[derive(Debug)]
pub struct IoFailure {
    pub kind: IoFailureKind,
    pub message: String,
}

impl IoFailure {
    pub fn new(kind: IoFailureKind, message: String) -> (failure: Self)
        ensures
            failure.kind == kind,
            failure.message == message,
    {
        Self { kind, message }
    }

    pub fn get_kind(&self) -> (kind: IoFailureKind)
        ensures
            kind == self.kind,
    {
        self.kind
    }

    pub fn get_message(&self) -> (message: &str)
        ensures
            message@ == self.message@,
    {
        self.message.as_str()
    }
}

} // verus!
