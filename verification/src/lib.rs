//! A single-threaded I/O reactor core for a batched kernel completion ring.
//!
//! Tasks issue read, write and readiness-poll operations; each in-flight
//! operation lives in a [`slot::SlotTable`] entry whose index is encoded into
//! an even, non-zero 64-bit tag handed to the kernel ring and echoed back
//! verbatim on completion.  The [`reactor::Reactor`] decodes tags, delivers
//! outcomes to exactly the slot that produced them, and runs a park decision
//! procedure that chooses whether the surrounding event loop may block, for
//! how long, and which auxiliary watches (timer, cross-thread wake) must be
//! re-armed first.
//!
//! The kernel ring, the timer descriptor and the wake descriptor are outside
//! collaborators: the reactor here only plans the calls (entries to submit,
//! timer commands, an enter call) and consumes the completions the ring
//! produced; performing the syscalls is left to the embedding runtime.

pub mod error;
pub mod file;
pub mod ops;
pub mod reactor;
pub mod slot;
