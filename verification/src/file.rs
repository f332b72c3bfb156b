use vstd::prelude::*;

verus! {

/// Owned file descriptor, carried as a plain value.
///
/// The reactor never reads or writes through the descriptor itself; it only
/// copies the number into submission entries.  Opening, closing and the
/// conversion from a runtime's own file types happen in the embedding code.
#[derive(Debug, PartialEq, Eq, Structural)]
pub struct File {
    pub fd: i32,
}

impl File {
    /// Wrap a raw descriptor number.
    pub fn new(fd: i32) -> (f: File)
        ensures
            f.fd == fd,
    {
        File { fd }
    }

    /// The wrapped descriptor number.
    pub fn as_raw_fd(&self) -> (fd: i32)
        ensures
            fd == self.fd,
    {
        self.fd
    }

    /// Give up ownership and return the descriptor number.
    pub fn into_raw_fd(self) -> (fd: i32)
        ensures
            fd == self.fd,
    {
        self.fd
    }
}

} // verus!
