use vstd::prelude::*;
use crate::error::{ArgError, RingError};

verus! {

/// A kernel release, as `major.minor.patch`.
#[derive(Clone, Copy, Debug, PartialEq, Eq, Structural)]
pub struct KernelVersion {
    pub major: u8,
    pub minor: u8,
    pub patch: u16,
}

/// The oldest kernel release the ring runs on is 5.18.
pub open spec fn kernel_supported(k: KernelVersion) -> bool {
    k.major > 5 || (k.major == 5 && k.minor >= 18)
}

impl KernelVersion {
    /// The release assumed when the running one cannot be read: the oldest
    /// one supported.
    pub fn assumed() -> (r: KernelVersion)
        ensures
            r == (KernelVersion { major: 5, minor: 18, patch: 0 }),
    {
        KernelVersion { major: 5, minor: 18, patch: 0 }
    }

    /// Whether the ring can run on this release.
    pub fn is_supported(&self) -> (r: bool)
        ensures
            r == kernel_supported(*self),
    {
        !(self.major < 5 || (self.major < 6 && self.minor < 18))
    }
}

/// How the kernel ring is to be set up.
#[derive(Clone, Copy, Debug, PartialEq, Eq, Structural)]
pub struct RingSetup {
    /// Submission queue capacity.
    pub entries: u32,
    /// Completion queue capacity, when asked for above the submission capacity.
    pub cq_entries: Option<u32>,
    /// Idle time of the kernel polling thread, when polling is wanted.
    pub sqpoll_idle_ms: Option<u32>,
    /// Whether to declare a single submitting thread.
    pub single_issuer: bool,
    /// Whether a full queue is flushed once before an enqueue fails.
    pub autosubmit: bool,
}

/// The setup that `create_io_ring` picks for valid arguments.
pub open spec fn setup_for(
    entries: u32,
    cq_entries: u32,
    sqpoll_idle_ms: u32,
    single_issuer: bool,
    autosubmit: bool,
    kernel: KernelVersion,
) -> RingSetup {
    RingSetup {
        entries,
        cq_entries: if cq_entries > entries {
            Some(cq_entries)
        } else {
            None
        },
        sqpoll_idle_ms: if sqpoll_idle_ms > 0 {
            Some(sqpoll_idle_ms)
        } else {
            None
        },
        single_issuer: single_issuer && kernel.major >= 6,
        autosubmit,
    }
}

/// The release that construction goes by: the detected one, or else the assumed one.
pub open spec fn effective_kernel(detected: Option<KernelVersion>) -> KernelVersion {
    match detected {
        Some(k) => k,
        None => KernelVersion { major: 5, minor: 18, patch: 0 },
    }
}

/// Validates the ring's configuration against the detected kernel release
/// and picks the setup. A zero capacity is an invalid argument; a release
/// older than 5.18 is an unsupported platform. The single-issuer hint is kept
/// only from 6.0 on; polling is on when its idle time is not zero.
pub fn create_io_ring(
    entries: u32,
    cq_entries: u32,
    sqpoll_idle_ms: u32,
    single_issuer: bool,
    autosubmit: bool,
    detected: Option<KernelVersion>,
) -> (r: Result<RingSetup, RingError>)
    ensures
        entries == 0 ==> r == Err::<RingSetup, RingError>(
            RingError::InvalidArgument(ArgError::ZeroEntries),
        ),
        entries != 0 && !kernel_supported(effective_kernel(detected)) ==> r == Err::<
            RingSetup,
            RingError,
        >(
            RingError::UnsupportedKernel {
                major: effective_kernel(detected).major,
                minor: effective_kernel(detected).minor,
            },
        ),
        entries != 0 && kernel_supported(effective_kernel(detected)) ==> r == Ok::<
            RingSetup,
            RingError,
        >(
            setup_for(
                entries,
                cq_entries,
                sqpoll_idle_ms,
                single_issuer,
                autosubmit,
                effective_kernel(detected),
            ),
        ),
{
    if entries == 0 {
        return Err(RingError::InvalidArgument(ArgError::ZeroEntries));
    }
    let kernel = match detected {
        Some(k) => k,
        None => KernelVersion::assumed(),
    };
    if !kernel.is_supported() {
        return Err(RingError::UnsupportedKernel { major: kernel.major, minor: kernel.minor });
    }
    let cq = if cq_entries > entries {
        Some(cq_entries)
    } else {
        None
    };
    let sqpoll = if sqpoll_idle_ms > 0 {
        Some(sqpoll_idle_ms)
    } else {
        None
    };
    Ok(
        RingSetup {
            entries,
            cq_entries: cq,
            sqpoll_idle_ms: sqpoll,
            single_issuer: single_issuer && kernel.major >= 6,
            autosubmit,
        },
    )
}

} // verus!
