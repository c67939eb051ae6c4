//! What can go wrong while a stub is generated.

use vstd::prelude::*;

verus! {

/// The failures and the one warning of stub generation.
#[derive(Clone, Copy, Debug, PartialEq, Eq, Structural)]
pub enum StubError {
    /// The argument at `index` is neither a string literal nor an `ffi`
    /// assignment.
    MalformedArgument { index: usize },
    /// The argument at `index` assigns to `ffi` something that is not a
    /// boolean literal. In a batch header the index is 0.
    InvalidFfiValue { index: usize },
    /// A batch starts with an assignment to a name other than `ffi`.
    UnexpectedBatchHeader,
    /// No destination for the audit log is configured, or it cannot be opened.
    AuditDestinationUnavailable,
    /// The audit log was opened but the line could not be appended.
    AuditWriteFailure,
}

impl StubError {
    /// Whether generation must stop. Only a missing audit destination is
    /// survivable: it is reported and generation goes on.
    pub open spec fn fatal(self) -> bool {
        !(self is AuditDestinationUnavailable)
    }

    /// Whether generation must stop on this error.
    pub fn is_fatal(&self) -> (r: bool)
        ensures
            r == self.fatal(),
    {
        match self {
            StubError::AuditDestinationUnavailable => false,
            _ => true,
        }
    }
}

} // verus!
