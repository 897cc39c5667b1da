//! The errors that adapter operations report.
use vstd::prelude::*;

verus! {

/// What went wrong.
#[derive(Clone, Copy, Debug, PartialEq, Eq, Structural, Hash)]
pub enum ErrorKind {
    /// The adapter is powered off, or access to it was denied.
    AdapterUnavailable,
    /// A scan is already running on this adapter.
    AlreadyScanning,
    /// An identity does not resolve to a known device.
    NotFound,
    /// The native framework rejected a connect or disconnect.
    ConnectionFailed,
    /// The event stream broke a rule that the operation depends on.
    Internal,
}

/// An error: its kind and a message for people.
#[derive(Clone, Debug, PartialEq, Eq)]
pub struct Error {
    pub kind: ErrorKind,
    pub message: String,
}

impl Error {
    pub fn new(kind: ErrorKind, message: String) -> (r: Error)
        ensures
            r.kind == kind,
            r.message@ == message@,
    {
        Error { kind, message }
    }

    /// An error of `kind` with an empty message.
    pub fn from_kind(kind: ErrorKind) -> (r: Error)
        ensures
            r.kind == kind,
            r.message@ == Seq::<char>::empty(),
    {
        Error { kind, message: String::new() }
    }

    pub fn kind(&self) -> (r: ErrorKind)
        ensures
            r == self.kind,
    {
        self.kind
    }
}

} // verus!
