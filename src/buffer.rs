use vstd::prelude::*;
use crate::error::{ArgError, RingError};

verus! {

/// Whether `[offset, offset + size)` lies within a buffer of `len` bytes.
pub open spec fn window_fits(len: int, size: int, offset: int) -> bool {
    0 <= offset && offset <= offset + size && offset + size <= len
}

/// The error for a window that does not fit, naming the first bound broken.
pub open spec fn window_error(len: usize, size: usize, offset: usize) -> Option<RingError> {
    if size > len {
        Some(RingError::InvalidArgument(ArgError::SizeTooLarge { size, len }))
    } else if offset > len {
        Some(RingError::InvalidArgument(ArgError::OffsetOutOfRange { offset, len }))
    } else if offset + size > len {
        Some(RingError::InvalidArgument(ArgError::EndOutOfRange { offset, size, len }))
    } else {
        None
    }
}

/// Checks that `size` bytes starting at `offset` lie inside `buf`, and returns
/// the end of that window. Each bound is checked in turn and the first one
/// broken is named.
pub fn check_write_buffer(buf: &[u8], size: usize, offset: usize) -> (r: Result<usize, RingError>)
    ensures
        r is Ok <==> window_fits(buf@.len() as int, size as int, offset as int),
        r is Ok ==> r->Ok_0 == offset + size,
        r is Ok <==> window_error(buf@.len() as usize, size, offset) is None,
        r is Err ==> r == Err::<usize, RingError>(window_error(buf@.len() as usize, size, offset)->0),
        size > buf@.len() ==> r == Err::<usize, RingError>(
            RingError::InvalidArgument(ArgError::SizeTooLarge { size, len: buf@.len() as usize }),
        ),
        size <= buf@.len() && offset > buf@.len() ==> r == Err::<usize, RingError>(
            RingError::InvalidArgument(
                ArgError::OffsetOutOfRange { offset, len: buf@.len() as usize },
            ),
        ),
        size <= buf@.len() && offset <= buf@.len() && offset + size > buf@.len() ==> r == Err::<
            usize,
            RingError,
        >(RingError::InvalidArgument(ArgError::EndOutOfRange { offset, size, len: buf@.len() as usize })),
{
    let len = buf.len();
    if size > len {
        return Err(RingError::InvalidArgument(ArgError::SizeTooLarge { size, len }));
    }
    if offset > len {
        return Err(RingError::InvalidArgument(ArgError::OffsetOutOfRange { offset, len }));
    }
    if offset > len - size {
        return Err(RingError::InvalidArgument(ArgError::EndOutOfRange { offset, size, len }));
    }
    Ok(offset + size)
}

/// A window is refused exactly when it does not fit in the buffer.
pub proof fn lemma_window_checked_iff_fits(len: usize, size: usize, offset: usize)
    ensures
        window_error(len, size, offset) is None <==> window_fits(len as int, size as int, offset as int),
{
}

/// A private copy of `data[start..end]`.
pub fn copy_window(data: &[u8], start: usize, end: usize) -> (r: Vec<u8>)
    requires
        start <= end <= data@.len(),
    ensures
        r@ == data@.subrange(start as int, end as int),
{
    let mut out: Vec<u8> = Vec::with_capacity(end - start);
    let mut i: usize = start;
    while i < end
        invariant
            start <= i <= end <= data@.len(),
            out@ == data@.subrange(start as int, i as int),
        decreases end - i,
    {
        out.push(data[i]);
        i = i + 1;
        assert(out@ =~= data@.subrange(start as int, i as int));
    }
    out
}

/// A private copy of `path` followed by one zero byte.
pub fn null_terminated(path: &[u8]) -> (r: Vec<u8>)
    ensures
        r@ == path@.push(0u8),
{
    let mut out: Vec<u8> = copy_window(path, 0, path.len());
    out.push(0);
    assert(path@.subrange(0, path@.len() as int) =~= path@);
    out
}

/// `len` zero bytes.
pub open spec fn zeros(len: nat) -> Seq<u8> {
    Seq::new(len, |i: int| 0u8)
}

/// A fresh buffer of `len` zero bytes.
pub fn zeroed_buffer(len: usize) -> (r: Vec<u8>)
    ensures
        r@ == zeros(len as nat),
{
    let mut out: Vec<u8> = Vec::with_capacity(len);
    let mut i: usize = 0;
    while i < len
        invariant
            i <= len,
            out@ == zeros(i as nat),
        decreases len - i,
    {
        out.push(0);
        i = i + 1;
        assert(out@ =~= zeros(i as nat));
    }
    out
}

/// A destination buffer as the caller sees it once the kernel reports
/// `result`: a failure leaves it whole, and a success cuts it to the bytes
/// actually transferred, never past its own length.
pub open spec fn finalized(buf: Seq<u8>, result: i32) -> Seq<u8> {
    if 0 <= result && (result as int) < buf.len() {
        buf.take(result as int)
    } else {
        buf
    }
}

/// Cuts a destination buffer down to the bytes the kernel reported.
pub fn finalize_buffer(buf: Vec<u8>, result: i32) -> (r: Vec<u8>)
    ensures
        r@ == finalized(buf@, result),
{
    let mut buf = buf;
    if result >= 0 && (result as usize) < buf.len() {
        buf.truncate(result as usize);
    }
    buf
}

} // verus!
