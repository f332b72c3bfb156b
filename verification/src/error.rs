use vstd::prelude::*;

verus! {

/// Failures the reactor can report.
///
/// Synchronous failures (`SubmissionFull`, `ReactorGone`) are returned from
/// the call that issued an operation, always together with the payload that
/// was handed in.  `OperationFailed` arrives asynchronously through a
/// future's resolution.  `ProtocolViolation` marks a completion whose tag no
/// live operation owns: a correlation bug, never recoverable.
#[derive(Clone, Copy, Debug, PartialEq, Eq, Structural)]
pub enum Error {
    /// The submission ring has no capacity left; the caller may retry later.
    SubmissionFull,
    /// The backing reactor has been torn down.
    ReactorGone,
    /// The kernel reported a negative result; the value is the negated errno.
    OperationFailed(i32),
    /// A completion carried a tag that is neither a live slot nor a known
    /// sentinel, or arrived when nothing was outstanding.
    ProtocolViolation,
}

} // verus!
