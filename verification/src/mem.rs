//! Memory read: fetch a physical memory region while the device is in
//! memory-debug mode.
//!
//! The host sends a memory-read request (opcode 0x11) carrying the address
//! and length as little-endian 64-bit words, then reads exactly `length`
//! raw bytes from the port — the reply is not framed. A short reply that
//! begins with the end-of-transfer opcode is an inline abort frame.

use vstd::prelude::*;
use crate::error::EndTransferError;
use crate::error::spec_end_transfer_error;
use crate::protocol::OP_MEMORY_READ;
use crate::protocol::RawPacket;
use crate::protocol::push_le64;
use crate::protocol::read_u32;
use crate::protocol::spec_le64;
use crate::protocol::spec_u32_of;

verus! {

/// The raw-byte reply to a memory read was shorter than requested.
#[derive(Debug, Clone, Copy, PartialEq, Eq, Structural)]
pub struct InvalidLengthError {
    pub expected: u64,
    pub got: usize,
}

/// Failure of a memory read.
#[derive(Debug, Clone, Copy, PartialEq, Eq, Structural)]
pub enum ReadmemError {
    /// A transport read or write failed; raised by the embedding program.
    Io,
    /// Fewer bytes than requested arrived and they are no abort frame.
    InvalidLength(InvalidLengthError),
    /// The device aborted the read with an end-of-transfer frame.
    EndTransfer(EndTransferError),
    /// A received opcode is not the one expected; raised while switching
    /// into memory-debug mode.
    UnknownMessage(u32),
    /// A frame's length field disagrees with the bytes received; raised
    /// while switching into memory-debug mode.
    Broken,
}

/// The memory-read request frame (opcode 0x11): `addr` and `length` as two
/// little-endian 64-bit words.
pub fn readmem_request(addr: u64, length: u64) -> (r: RawPacket)
    ensures
        r.kind == OP_MEMORY_READ,
        r.payload@ == spec_le64(addr) + spec_le64(length),
{
    let mut p: Vec<u8> = Vec::new();
    push_le64(&mut p, addr);
    push_le64(&mut p, length);
    RawPacket::new(OP_MEMORY_READ, p)
}

/// What the raw bytes read back from a memory read yield: the buffer when
/// it arrived whole; the device's abort when a short reply begins with the
/// end-of-transfer opcode and is long enough to carry a reason at byte 8;
/// an invalid length otherwise.
pub open spec fn spec_readmem_finish(buf: Seq<u8>, got: usize, length: u64) -> Result<
    Seq<u8>,
    ReadmemError,
> {
    if got as int >= length as int {
        Ok(buf)
    } else if buf.len() >= 12 && spec_u32_of(buf.subrange(0, 4)) == 4 {
        Err(ReadmemError::EndTransfer(spec_end_transfer_error(spec_u32_of(buf.subrange(8, 12)))))
    } else {
        Err(ReadmemError::InvalidLength(InvalidLengthError { expected: length, got }))
    }
}

/// Accept the raw bytes read back in memory-debug mode. `buf` was allocated
/// with the requested `length`; `got` is how many bytes the single read
/// returned.
pub fn readmem_finish(buf: Vec<u8>, got: usize, length: u64) -> (r: Result<Vec<u8>, ReadmemError>)
    requires
        buf@.len() == length,
        got <= buf@.len(),
    ensures
        match r {
            Ok(v) => spec_readmem_finish(buf@, got, length) == Ok::<Seq<u8>, ReadmemError>(v@),
            Err(e) => spec_readmem_finish(buf@, got, length) == Err::<Seq<u8>, ReadmemError>(e),
        },
{
    if (got as u64) >= length {
        return Ok(buf);
    }
    if buf.len() >= 12 {
        let first = read_u32(&buf, 0);
        if first == 4 {
            let code = read_u32(&buf, 8);
            return Err(ReadmemError::EndTransfer(EndTransferError::from_code(code)));
        }
    }
    Err(ReadmemError::InvalidLength(InvalidLengthError { expected: length, got }))
}

/// Memory read layered on the session. The embedding program, which owns
/// the port, implements it by switching to memory-debug mode, sending the
/// request frame, and handing the raw reply to [`readmem_finish`].
pub trait SaharaMemExt {
    /// Read `length` bytes of physical memory at `addr`.
    fn readmem(&mut self, addr: u64, length: u64) -> Result<Vec<u8>, ReadmemError>;
}

} // verus!
