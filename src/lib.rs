//! Submission/completion bookkeeping for a kernel I/O ring.
//!
//! The library holds the decisions around the ring: behaviour flags, the
//! capability set, validation of each operation, the ownership registry that
//! keeps in-flight data alive, the bounded enqueue retry, and completion
//! harvesting. The kernel calls themselves are made by the caller, who hands
//! their outcomes back in.

pub mod buffer;
pub mod caps;
pub mod completion;
pub mod enqueue;
pub mod error;
pub mod flags;
pub mod registry;
pub mod ring;
pub mod setup;
pub mod submit;

pub use buffer::{
    check_write_buffer, copy_window, finalize_buffer, null_terminated, zeroed_buffer,
};
pub use caps::{Capabilities, OpKind};
pub use error::{ArgError, RingError};
pub use flags::{
    decode_sqe_flags, make_uring_flags, skips_success, ALL_SQE_FLAGS, SQE_ASYNC,
    SQE_BUFFER_SELECT, SQE_FIXED_FILE, SQE_IO_DRAIN, SQE_IO_HARDLINK, SQE_IO_LINK,
    SQE_SKIP_SUCCESS,
};
pub use registry::{OwnedData, OwnershipRegistry};
pub use completion::{harvest, CompletionEvent, RawCompletion, INTERNAL_TOKEN_BIT};
pub use enqueue::{EnqueueAction, EnqueueState};
pub use setup::{create_io_ring, KernelVersion, RingSetup};
pub use ring::TheIoRing;
pub use submit::{
    ioring_prep_close, ioring_prep_connect_v4, ioring_prep_connect_v6, ioring_prep_create_socket,
    ioring_prep_openat, ioring_prep_read, ioring_prep_recv, ioring_prep_send, ioring_prep_write,
    timeout_barrier, Operation, Request, Submission, TIMEOUT_TOKEN,
};
