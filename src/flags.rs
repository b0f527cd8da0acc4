use vstd::prelude::*;

verus! {

/// The fd is an index into the ring's registered file table.
pub const SQE_FIXED_FILE: u8 = 1;

/// Start only after all earlier entries have completed.
pub const SQE_IO_DRAIN: u8 = 2;

/// Chain the next entry after this one; the chain breaks on failure.
pub const SQE_IO_LINK: u8 = 4;

/// Chain the next entry after this one, whatever this one's result.
pub const SQE_IO_HARDLINK: u8 = 8;

/// Issue asynchronously from the start.
pub const SQE_ASYNC: u8 = 16;

/// Let the kernel pick a provided buffer.
pub const SQE_BUFFER_SELECT: u8 = 32;

/// Post no completion when the operation succeeds.
pub const SQE_SKIP_SUCCESS: u8 = 64;

/// Every flag bit the ring knows of.
pub const ALL_SQE_FLAGS: u8 = 127;

pub open spec fn bit_if(on: bool, bit: u8) -> u8 {
    if on {
        bit
    } else {
        0
    }
}

/// The flag byte for seven named toggles, one bit each.
pub open spec fn flags_byte(
    fixed_file: bool,
    io_drain: bool,
    io_link: bool,
    io_hardlink: bool,
    io_async: bool,
    buffer_select: bool,
    skip_success: bool,
) -> u8 {
    (bit_if(fixed_file, SQE_FIXED_FILE) + bit_if(io_drain, SQE_IO_DRAIN) + bit_if(
        io_link,
        SQE_IO_LINK,
    ) + bit_if(io_hardlink, SQE_IO_HARDLINK) + bit_if(io_async, SQE_ASYNC) + bit_if(
        buffer_select,
        SQE_BUFFER_SELECT,
    ) + bit_if(skip_success, SQE_SKIP_SUCCESS)) as u8
}

/// Whether a flag byte holds the given bit (a power of two).
pub open spec fn has_flag(flags: u8, bit: u8) -> bool {
    (flags as int / bit as int) % 2 == 1
}

/// A flag byte with every unknown bit dropped.
pub open spec fn known_flags(raw: u8) -> u8 {
    (raw % 128) as u8
}

/// Composes the flag byte that the ring understands from seven toggles.
pub fn make_uring_flags(
    fixed_file: bool,
    io_drain: bool,
    io_link: bool,
    io_hardlink: bool,
    io_async: bool,
    buffer_select: bool,
    skip_success: bool,
) -> (r: u8)
    ensures
        r == flags_byte(
            fixed_file,
            io_drain,
            io_link,
            io_hardlink,
            io_async,
            buffer_select,
            skip_success,
        ),
        has_flag(r, SQE_FIXED_FILE) == fixed_file,
        has_flag(r, SQE_IO_DRAIN) == io_drain,
        has_flag(r, SQE_IO_LINK) == io_link,
        has_flag(r, SQE_IO_HARDLINK) == io_hardlink,
        has_flag(r, SQE_ASYNC) == io_async,
        has_flag(r, SQE_BUFFER_SELECT) == buffer_select,
        has_flag(r, SQE_SKIP_SUCCESS) == skip_success,
        known_flags(r) == r,
{
    let a: u8 = if fixed_file { SQE_FIXED_FILE } else { 0 };
    let b: u8 = if io_drain { SQE_IO_DRAIN } else { 0 };
    let c: u8 = if io_link { SQE_IO_LINK } else { 0 };
    let d: u8 = if io_hardlink { SQE_IO_HARDLINK } else { 0 };
    let e: u8 = if io_async { SQE_ASYNC } else { 0 };
    let f: u8 = if buffer_select { SQE_BUFFER_SELECT } else { 0 };
    let g: u8 = if skip_success { SQE_SKIP_SUCCESS } else { 0 };
    let flags: u8 = a | b | c | d | e | f | g;
    assert((a == 0 || a == 1) && (b == 0 || b == 2) && (c == 0 || c == 4) && (d == 0 || d == 8)
        && (e == 0 || e == 16) && (f == 0 || f == 32) && (g == 0 || g == 64) ==> {
        let r = a | b | c | d | e | f | g;
        &&& r == a + b + c + d + e + f + g
        &&& ((r / 1) % 2 == 1) == (a == 1)
        &&& ((r / 2) % 2 == 1) == (b == 2)
        &&& ((r / 4) % 2 == 1) == (c == 4)
        &&& ((r / 8) % 2 == 1) == (d == 8)
        &&& ((r / 16) % 2 == 1) == (e == 16)
        &&& ((r / 32) % 2 == 1) == (f == 32)
        &&& ((r / 64) % 2 == 1) == (g == 64)
        &&& r % 128 == r
    }) by (bit_vector);
    flags
}


/// Relies on io_uring's `squeue::Flags::from_bits_truncate` and `Flags::bits`:
/// bits that are not one of the seven known flags are dropped, the rest kept.
#[verifier::external_body]
fn truncate_sqe_flags(raw: u8) -> (r: u8)
    ensures
        r == raw & ALL_SQE_FLAGS,
{
    io_uring::squeue::Flags::from_bits_truncate(raw).bits()
}

/// Decodes a caller's flag byte as the ring will read it: unknown bits are
/// tolerated and dropped, never rejected.
pub fn decode_sqe_flags(raw: u8) -> (r: u8)
    ensures
        r == known_flags(raw),
        has_flag(r, SQE_SKIP_SUCCESS) == has_flag(raw, SQE_SKIP_SUCCESS),
{
    let r = truncate_sqe_flags(raw);
    assert(raw & 127 == raw % 128) by (bit_vector);
    assert(((raw % 128) / 64) % 2 == (raw / 64) % 2) by (bit_vector);
    r
}

/// Whether a decoded flag byte asks to skip the success completion.
pub fn skips_success(flags: u8) -> (r: bool)
    ensures
        r == has_flag(flags, SQE_SKIP_SUCCESS),
{
    assert((flags & 64 != 0) == ((flags / 64) % 2 == 1)) by (bit_vector);
    flags & SQE_SKIP_SUCCESS != 0
}

} // verus!
