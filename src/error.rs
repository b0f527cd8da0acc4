use vstd::prelude::*;
use crate::caps::OpKind;

verus! {

/// Why an argument was refused before anything reached the kernel.
#[derive(Clone, Copy, Debug, PartialEq, Eq, Structural)]
pub enum ArgError {
    /// The submission queue was asked for zero entries.
    ZeroEntries,
    /// More bytes were asked for than the buffer holds.
    SizeTooLarge { size: usize, len: usize },
    /// The offset lies past the end of the buffer.
    OffsetOutOfRange { offset: usize, len: usize },
    /// The window `[offset, offset + size)` runs past the end of the buffer.
    EndOutOfRange { offset: usize, size: usize, len: usize },
    /// Skip-success was asked for on an operation that keeps data alive.
    SkipSuccessWithOwnedData,
    /// The address text did not parse for the requested family.
    BadAddress,
}

/// Every failure that the ring reports synchronously.
#[derive(Clone, Copy, Debug, PartialEq, Eq, Structural)]
pub enum RingError {
    /// The running kernel does not support this operation.
    NotImplemented(OpKind),
    InvalidArgument(ArgError),
    /// The submission queue stayed full after the one permitted flush.
    QueueFull,
    /// The ring has been closed.
    RingClosed,
    /// The kernel refused a call with this errno.
    Os(i32),
    /// The kernel is older than the minimum this ring needs.
    UnsupportedKernel { major: u8, minor: u8 },
}

} // verus!
