use vstd::prelude::*;
use nix::sys::socket::{SockaddrIn, SockaddrIn6};
use crate::buffer::{check_write_buffer, copy_window, null_terminated, window_error, zeroed_buffer, zeros};
use crate::caps::{op_code, OpKind};
use crate::completion::{is_internal_token, INTERNAL_TOKEN_BIT};
use crate::error::{ArgError, RingError};
use crate::flags::{decode_sqe_flags, has_flag, known_flags, skips_success, SQE_SKIP_SUCCESS};
use crate::registry::OwnedData;
use crate::ring::TheIoRing;

verus! {

/// The operation-specific part of a request.
#[derive(Clone, Copy, Debug, PartialEq, Eq, Structural)]
pub enum Operation {
    OpenAt { dirfd: i32, file_flags: i32, mode: u32 },
    /// Reads into the owned buffer, whose length is the maximum size.
    Read { fd: i32, offset: i64 },
    /// Writes the owned buffer.
    Write { fd: i32, offset: i64 },
    Close { fd: i32 },
    Socket { domain: i32, socket_type: i32, protocol: i32 },
    /// Connects to the owned address.
    Connect { fd: i32 },
    /// Sends the owned buffer.
    Send { fd: i32, flags: i32 },
    /// Receives into the owned buffer, whose length is the maximum size.
    Recv { fd: i32, flags: i32 },
    Timeout { sec: u64, nsec: u32 },
}

/// A request descriptor: the operation, its decoded behaviour flags, and
/// its correlation token.
#[derive(Clone, Copy, Debug, PartialEq, Eq, Structural)]
pub struct Request {
    pub op: Operation,
    pub sqe_flags: u8,
    pub user_data: u64,
}

/// A validated request together with the data it points into. Once the
/// request is on the queue the data goes to the ring's registry.
pub struct Submission {
    pub request: Request,
    pub owned: Option<OwnedData>,
}

/// The token of the timeout barrier: the internal bit is set.
pub const TIMEOUT_TOKEN: u64 = 0xFFFF_FFFF_FFFF_FF00;

/// The first check an operation fails, in the order: support by the kernel,
/// skip-success on an operation that owns data, the operation's own
/// argument check, an open ring.
pub open spec fn prep_error(
    ring: TheIoRing,
    kind: OpKind,
    sqe_flags: u8,
    owns_data: bool,
    arg: Option<RingError>,
) -> Option<RingError> {
    if !ring.supported().contains(op_code(kind)) {
        Some(RingError::NotImplemented(kind))
    } else if owns_data && has_flag(sqe_flags, SQE_SKIP_SUCCESS) {
        Some(RingError::InvalidArgument(ArgError::SkipSuccessWithOwnedData))
    } else if arg is Some {
        arg
    } else if !ring.is_open() {
        Some(RingError::RingClosed)
    } else {
        None
    }
}

/// Whether `r` is the outcome `prep_error` calls for, and on success carries `req`.
pub open spec fn prep_result(r: Result<Submission, RingError>, err: Option<RingError>, req: Request) -> bool {
    &&& err is Some ==> r is Err && r->Err_0 == err->0
    &&& err is None ==> r is Ok && r->Ok_0.request == req
}

/// Whether the owned data is a buffer holding `bytes`.
pub open spec fn owns_buffer(owned: Option<OwnedData>, bytes: Seq<u8>) -> bool {
    match owned {
        Some(OwnedData::Buffer(b)) => b@ == bytes,
        _ => false,
    }
}

/// Whether the owned data is one path holding `bytes`.
pub open spec fn owns_path(owned: Option<OwnedData>, bytes: Seq<u8>) -> bool {
    match owned {
        Some(OwnedData::OnePath(p)) => p@ == bytes,
        _ => false,
    }
}

/// The request that every operation builds from its decoded flags and token.
pub open spec fn request_of(op: Operation, sqe_flags: u8, user_data: u64) -> Request {
    Request { op, sqe_flags: known_flags(sqe_flags), user_data }
}

/// Checks support and flags in turn; returns the decoded flags.
fn check_common(ring: &TheIoRing, kind: OpKind, sqe_flags: u8, owns_data: bool) -> (r: Result<
    u8,
    RingError,
>)
    requires
        ring.wf(),
    ensures
        r is Ok ==> r->Ok_0 == known_flags(sqe_flags),
        r is Ok <==> prep_error(*ring, kind, sqe_flags, owns_data, None) is None || prep_error(
            *ring,
            kind,
            sqe_flags,
            owns_data,
            None,
        ) == Some(RingError::RingClosed),
        r is Err ==> prep_error(*ring, kind, sqe_flags, owns_data, None) == Some(r->Err_0)
            && forall|e: Option<RingError>| prep_error(*ring, kind, sqe_flags, owns_data, e) == Some(r->Err_0),
{
    if !ring.supports(kind) {
        return Err(RingError::NotImplemented(kind));
    }
    let flags = decode_sqe_flags(sqe_flags);
    if owns_data && skips_success(flags) {
        return Err(RingError::InvalidArgument(ArgError::SkipSuccessWithOwnedData));
    }
    Ok(flags)
}

/// Prepares an `openat(2)` of `file_path` relative to `dirfd`. The path is
/// copied and null-terminated, and the copy is kept alive for the operation.
pub fn ioring_prep_openat(
    ring: &TheIoRing,
    dirfd: i32,
    file_path: &[u8],
    user_data: u64,
    file_flags: i32,
    mode: u32,
    sqe_flags: u8,
) -> (r: Result<Submission, RingError>)
    requires
        ring.wf(),
    ensures
        prep_result(
            r,
            prep_error(*ring, OpKind::OpenAt, sqe_flags, true, None),
            request_of(Operation::OpenAt { dirfd, file_flags, mode }, sqe_flags, user_data),
        ),
        r is Ok ==> owns_path(r->Ok_0.owned, file_path@.push(0u8)),
{
    let flags = check_common(ring, OpKind::OpenAt, sqe_flags, true)?;
    ring.ensure_open()?;
    let path = null_terminated(file_path);
    Ok(
        Submission {
            request: Request { op: Operation::OpenAt { dirfd, file_flags, mode }, sqe_flags: flags, user_data },
            owned: Some(OwnedData::OnePath(path)),
        },
    )
}

/// Prepares a `read(2)` of up to `max_size` bytes at `offset` into a fresh
/// zero-filled buffer that the operation owns.
pub fn ioring_prep_read(
    ring: &TheIoRing,
    fd: i32,
    max_size: u32,
    offset: i64,
    user_data: u64,
    sqe_flags: u8,
) -> (r: Result<Submission, RingError>)
    requires
        ring.wf(),
    ensures
        prep_result(
            r,
            prep_error(*ring, OpKind::Read, sqe_flags, true, None),
            request_of(Operation::Read { fd, offset }, sqe_flags, user_data),
        ),
        r is Ok ==> owns_buffer(r->Ok_0.owned, zeros(max_size as nat)),
{
    let flags = check_common(ring, OpKind::Read, sqe_flags, true)?;
    ring.ensure_open()?;
    let buf = zeroed_buffer(max_size as usize);
    Ok(
        Submission {
            request: Request { op: Operation::Read { fd, offset }, sqe_flags: flags, user_data },
            owned: Some(OwnedData::Buffer(buf)),
        },
    )
}

/// Prepares a `write(2)` at `file_offset` of the `size` bytes of `data` that
/// start at `buffer_offset`. Those bytes are copied, and the copy is kept
/// alive for the operation.
pub fn ioring_prep_write(
    ring: &TheIoRing,
    fd: i32,
    data: &[u8],
    size: usize,
    buffer_offset: usize,
    file_offset: i64,
    user_data: u64,
    sqe_flags: u8,
) -> (r: Result<Submission, RingError>)
    requires
        ring.wf(),
    ensures
        prep_result(
            r,
            prep_error(
                *ring,
                OpKind::Write,
                sqe_flags,
                true,
                window_error(data@.len() as usize, size, buffer_offset),
            ),
            request_of(Operation::Write { fd, offset: file_offset }, sqe_flags, user_data),
        ),
        r is Ok ==> owns_buffer(
            r->Ok_0.owned,
            data@.subrange(buffer_offset as int, buffer_offset + size),
        ),
{
    let flags = check_common(ring, OpKind::Write, sqe_flags, true)?;
    let end = check_write_buffer(data, size, buffer_offset)?;
    ring.ensure_open()?;
    let vec = copy_window(data, buffer_offset, end);
    Ok(
        Submission {
            request: Request { op: Operation::Write { fd, offset: file_offset }, sqe_flags: flags, user_data },
            owned: Some(OwnedData::Buffer(vec)),
        },
    )
}

/// Prepares a `close(2)` of `fd`. Nothing is owned, so skip-success is allowed.
pub fn ioring_prep_close(ring: &TheIoRing, fd: i32, user_data: u64, sqe_flags: u8) -> (r: Result<
    Submission,
    RingError,
>)
    requires
        ring.wf(),
    ensures
        prep_result(
            r,
            prep_error(*ring, OpKind::Close, sqe_flags, false, None),
            request_of(Operation::Close { fd }, sqe_flags, user_data),
        ),
        r is Ok ==> r->Ok_0.owned is None,
{
    let flags = check_common(ring, OpKind::Close, sqe_flags, false)?;
    ring.ensure_open()?;
    Ok(Submission { request: Request { op: Operation::Close { fd }, sqe_flags: flags, user_data }, owned: None })
}

/// Prepares a `socket(2)`. Nothing is owned, so skip-success is allowed.
pub fn ioring_prep_create_socket(
    ring: &TheIoRing,
    domain: i32,
    socket_type: i32,
    protocol: i32,
    user_data: u64,
    sqe_flags: u8,
) -> (r: Result<Submission, RingError>)
    requires
        ring.wf(),
    ensures
        prep_result(
            r,
            prep_error(*ring, OpKind::Socket, sqe_flags, false, None),
            request_of(Operation::Socket { domain, socket_type, protocol }, sqe_flags, user_data),
        ),
        r is Ok ==> r->Ok_0.owned is None,
{
    let flags = check_common(ring, OpKind::Socket, sqe_flags, false)?;
    ring.ensure_open()?;
    Ok(
        Submission {
            request: Request { op: Operation::Socket { domain, socket_type, protocol }, sqe_flags: flags, user_data },
            owned: None,
        },
    )
}

/// The argument error of a connect: an address that did not parse.
pub open spec fn address_error<A>(addr: Option<A>) -> Option<RingError> {
    if addr is None {
        Some(RingError::InvalidArgument(ArgError::BadAddress))
    } else {
        None
    }
}

/// Prepares a `connect(2)` of `fd` to an IPv4 address. `addr` is the
/// address as parsed from the caller's text, or `None` where it did not
/// parse; the address is kept alive for the operation.
pub fn ioring_prep_connect_v4(
    ring: &TheIoRing,
    fd: i32,
    addr: Option<SockaddrIn>,
    user_data: u64,
    sqe_flags: u8,
) -> (r: Result<Submission, RingError>)
    requires
        ring.wf(),
    ensures
        prep_result(
            r,
            prep_error(*ring, OpKind::Connect, sqe_flags, true, address_error(addr)),
            request_of(Operation::Connect { fd }, sqe_flags, user_data),
        ),
        r is Ok ==> (r->Ok_0.owned matches Some(OwnedData::SockAddrV4(a)) && *a == addr->0),
{
    let flags = check_common(ring, OpKind::Connect, sqe_flags, true)?;
    let a = match addr {
        Some(a) => a,
        None => {
            return Err(RingError::InvalidArgument(ArgError::BadAddress));
        },
    };
    ring.ensure_open()?;
    Ok(
        Submission {
            request: Request { op: Operation::Connect { fd }, sqe_flags: flags, user_data },
            owned: Some(OwnedData::SockAddrV4(Box::new(a))),
        },
    )
}

/// Prepares a `connect(2)` of `fd` to an IPv6 address. `addr` is the
/// address as parsed from the caller's text, or `None` where it did not
/// parse; the address is kept alive for the operation.
pub fn ioring_prep_connect_v6(
    ring: &TheIoRing,
    fd: i32,
    addr: Option<SockaddrIn6>,
    user_data: u64,
    sqe_flags: u8,
) -> (r: Result<Submission, RingError>)
    requires
        ring.wf(),
    ensures
        prep_result(
            r,
            prep_error(*ring, OpKind::Connect, sqe_flags, true, address_error(addr)),
            request_of(Operation::Connect { fd }, sqe_flags, user_data),
        ),
        r is Ok ==> (r->Ok_0.owned matches Some(OwnedData::SockAddrV6(a)) && *a == addr->0),
{
    let flags = check_common(ring, OpKind::Connect, sqe_flags, true)?;
    let a = match addr {
        Some(a) => a,
        None => {
            return Err(RingError::InvalidArgument(ArgError::BadAddress));
        },
    };
    ring.ensure_open()?;
    Ok(
        Submission {
            request: Request { op: Operation::Connect { fd }, sqe_flags: flags, user_data },
            owned: Some(OwnedData::SockAddrV6(Box::new(a))),
        },
    )
}

/// Prepares a `send(2)` on `fd` of the `size` bytes of `data` that start at
/// `buffer_offset`. Those bytes are copied, and the copy is kept alive for
/// the operation.
pub fn ioring_prep_send(
    ring: &TheIoRing,
    fd: i32,
    data: &[u8],
    size: usize,
    buffer_offset: usize,
    flags: i32,
    user_data: u64,
    sqe_flags: u8,
) -> (r: Result<Submission, RingError>)
    requires
        ring.wf(),
    ensures
        prep_result(
            r,
            prep_error(
                *ring,
                OpKind::Send,
                sqe_flags,
                true,
                window_error(data@.len() as usize, size, buffer_offset),
            ),
            request_of(Operation::Send { fd, flags }, sqe_flags, user_data),
        ),
        r is Ok ==> owns_buffer(
            r->Ok_0.owned,
            data@.subrange(buffer_offset as int, buffer_offset + size),
        ),
{
    let decoded = check_common(ring, OpKind::Send, sqe_flags, true)?;
    let end = check_write_buffer(data, size, buffer_offset)?;
    ring.ensure_open()?;
    let vec = copy_window(data, buffer_offset, end);
    Ok(
        Submission {
            request: Request { op: Operation::Send { fd, flags }, sqe_flags: decoded, user_data },
            owned: Some(OwnedData::Buffer(vec)),
        },
    )
}

/// Prepares a `recv(2)` on `fd` of up to `max_size` bytes into a fresh
/// zero-filled buffer that the operation owns.
pub fn ioring_prep_recv(
    ring: &TheIoRing,
    fd: i32,
    max_size: u32,
    flags: i32,
    user_data: u64,
    sqe_flags: u8,
) -> (r: Result<Submission, RingError>)
    requires
        ring.wf(),
    ensures
        prep_result(
            r,
            prep_error(*ring, OpKind::Recv, sqe_flags, true, None),
            request_of(Operation::Recv { fd, flags }, sqe_flags, user_data),
        ),
        r is Ok ==> owns_buffer(r->Ok_0.owned, zeros(max_size as nat)),
{
    let decoded = check_common(ring, OpKind::Recv, sqe_flags, true)?;
    ring.ensure_open()?;
    let buf = zeroed_buffer(max_size as usize);
    Ok(
        Submission {
            request: Request { op: Operation::Recv { fd, flags }, sqe_flags: decoded, user_data },
            owned: Some(OwnedData::Buffer(buf)),
        },
    )
}

/// The timeout barrier that a bounded wait places behind the flushed work:
/// an internal token, and no completion on success.
pub fn timeout_barrier(sec: u64, nsec: u32) -> (r: Request)
    ensures
        r == (Request { op: Operation::Timeout { sec, nsec }, sqe_flags: SQE_SKIP_SUCCESS, user_data: TIMEOUT_TOKEN }),
        is_internal_token(r.user_data),
{
    Request { op: Operation::Timeout { sec, nsec }, sqe_flags: SQE_SKIP_SUCCESS, user_data: TIMEOUT_TOKEN }
}


/// Once a ring is closed, every operation that passes its own checks fails
/// with ring-closed.
pub proof fn lemma_closed_ring_refuses(
    ring: TheIoRing,
    kind: OpKind,
    sqe_flags: u8,
    owns_data: bool,
)
    requires
        !ring.is_open(),
        ring.supported().contains(op_code(kind)),
        !(owns_data && has_flag(sqe_flags, SQE_SKIP_SUCCESS)),
    ensures
        prep_error(ring, kind, sqe_flags, owns_data, None) == Some(RingError::RingClosed),
{
}

/// An operation that owns data and asks to skip its success completion is
/// refused as an invalid argument whenever the kernel supports it, before
/// anything is queued.
pub proof fn lemma_skip_success_with_owned_data_refused(
    ring: TheIoRing,
    kind: OpKind,
    sqe_flags: u8,
    arg: Option<RingError>,
)
    requires
        ring.supported().contains(op_code(kind)),
        has_flag(sqe_flags, SQE_SKIP_SUCCESS),
    ensures
        prep_error(ring, kind, sqe_flags, true, arg) == Some(
            RingError::InvalidArgument(ArgError::SkipSuccessWithOwnedData),
        ),
{
}

} // verus!
