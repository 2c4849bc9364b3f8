//! Operating-system failures as plain values.
use vstd::prelude::*;

verus! {

/// The kinds of failure that decisions depend on.
#[derive(Clone, Copy, Debug, PartialEq, Eq, Structural, Hash)]
pub enum IoKind {
    NotFound,
    PermissionDenied,
    ConnectionReset,
    ConnectionRefused,
    NotConnected,
    AddrInUse,
    BrokenPipe,
    AlreadyExists,
    WouldBlock,
    NotADirectory,
    InvalidInput,
    InvalidData,
    TimedOut,
    Interrupted,
    UnexpectedEof,
    Other,
}

/// One failure: its kind, the system's error number where it has one, and a text for people.
#[derive(Debug)]
pub struct IoFailure {
    pub kind: IoKind,
    pub errno: Option<i32>,
    pub message: String,
}

impl IoFailure {
    /// Whether a failure has this kind and this text, and no error number.
    pub open spec fn is(self, kind: IoKind, message: Seq<char>) -> bool {
        self.kind == kind && self.errno is None && self.message@ == message
    }

    /// A failure that the program found itself.
    pub fn new(kind: IoKind, message: &str) -> (failure: IoFailure)
        ensures
            failure.is(kind, message@),
    {
        IoFailure { kind, errno: None, message: message.to_owned() }
    }
}

} // verus!
