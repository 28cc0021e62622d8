//! Framed wire codec: little-endian scalar encoding, the opcode table, and
//! the raw packet type.
//!
//! A frame on the wire is `opcode_le32 || total_len_le32 || payload`, where
//! `total_len` counts the eight header bytes plus the payload. There is no
//! checksum and no delimiter: the length field alone defines the boundary.

use vstd::prelude::*;
use crate::error::SaharaError;

verus! {

// Opcodes of the protocol. Every frame starts with one of these as its
// first little-endian word.
pub const OP_HELLO: u32 = 0x01;
pub const OP_HELLO_RESPONSE: u32 = 0x02;
pub const OP_READ_DATA: u32 = 0x03;
pub const OP_END_TRANSFER: u32 = 0x04;
pub const OP_DONE: u32 = 0x05;
pub const OP_DONE_RESPONSE: u32 = 0x06;
pub const OP_RESET: u32 = 0x07;
pub const OP_RESET_RESPONSE: u32 = 0x08;
pub const OP_MODE_ACK: u32 = 0x0B;
pub const OP_SWITCH_MODE: u32 = 0x0C;
pub const OP_EXECUTE: u32 = 0x0D;
pub const OP_EXECUTE_RESPONSE: u32 = 0x0E;
pub const OP_EXECUTE_DATA: u32 = 0x0F;
pub const OP_MEMORY_READ: u32 = 0x11;
pub const OP_READ_DATA_64: u32 = 0x12;

/// The four little-endian bytes of a 32-bit word.
pub open spec fn spec_le32(x: u32) -> Seq<u8> {
    seq![
        (x & 0xff) as u8,
        ((x >> 8) & 0xff) as u8,
        ((x >> 16) & 0xff) as u8,
        ((x >> 24) & 0xff) as u8,
    ]
}

/// The 32-bit word denoted by four little-endian bytes.
pub open spec fn spec_u32_of(s: Seq<u8>) -> u32
    recommends
        s.len() == 4,
{
    (s[0] as u32) | (s[1] as u32) << 8 | (s[2] as u32) << 16 | (s[3] as u32) << 24
}

/// The eight little-endian bytes of a 64-bit word.
pub open spec fn spec_le64(x: u64) -> Seq<u8> {
    seq![
        (x & 0xff) as u8,
        ((x >> 8) & 0xff) as u8,
        ((x >> 16) & 0xff) as u8,
        ((x >> 24) & 0xff) as u8,
        ((x >> 32) & 0xff) as u8,
        ((x >> 40) & 0xff) as u8,
        ((x >> 48) & 0xff) as u8,
        ((x >> 56) & 0xff) as u8,
    ]
}

/// The 64-bit word denoted by eight little-endian bytes.
pub open spec fn spec_u64_of(s: Seq<u8>) -> u64
    recommends
        s.len() == 8,
{
    (s[0] as u64) | (s[1] as u64) << 8 | (s[2] as u64) << 16 | (s[3] as u64) << 24
        | (s[4] as u64) << 32 | (s[5] as u64) << 40 | (s[6] as u64) << 48 | (s[7] as u64) << 56
}

/// A word below 256 encodes as its low byte followed by three zero bytes.
pub proof fn lemma_le32_small(x: u32)
    requires
        x < 256,
    ensures
        spec_le32(x) =~= seq![x as u8, 0u8, 0u8, 0u8],
{
    assert(x < 256 ==> (x & 0xff) == x && ((x >> 8) & 0xff) == 0 && ((x >> 16) & 0xff) == 0
        && ((x >> 24) & 0xff) == 0) by (bit_vector);
}

/// Encoding a 32-bit word little-endian and decoding the four bytes gives
/// the word back.
pub proof fn lemma_le32_round_trip(x: u32)
    ensures
        spec_u32_of(spec_le32(x)) == x,
{
    assert(x & 0xff < 256 && (x >> 8) & 0xff < 256 && (x >> 16) & 0xff < 256
        && (x >> 24) & 0xff < 256) by (bit_vector);
    assert(x == (x & 0xff) | ((x >> 8) & 0xff) << 8 | ((x >> 16) & 0xff) << 16
        | ((x >> 24) & 0xff) << 24) by (bit_vector);
}

/// Encoding a 64-bit word little-endian and decoding the eight bytes gives
/// the word back.
pub proof fn lemma_le64_round_trip(x: u64)
    ensures
        spec_u64_of(spec_le64(x)) == x,
{
    assert(x & 0xff < 256 && (x >> 8) & 0xff < 256 && (x >> 16) & 0xff < 256
        && (x >> 24) & 0xff < 256 && (x >> 32) & 0xff < 256 && (x >> 40) & 0xff < 256
        && (x >> 48) & 0xff < 256 && (x >> 56) & 0xff < 256) by (bit_vector);
    assert(x == (x & 0xff) | ((x >> 8) & 0xff) << 8 | ((x >> 16) & 0xff) << 16
        | ((x >> 24) & 0xff) << 24 | ((x >> 32) & 0xff) << 32 | ((x >> 40) & 0xff) << 40
        | ((x >> 48) & 0xff) << 48 | ((x >> 56) & 0xff) << 56) by (bit_vector);
}

/// Append the four little-endian bytes of `x` to `out`.
pub fn push_le32(out: &mut Vec<u8>, x: u32)
    ensures
        final(out)@ == old(out)@ + spec_le32(x),
{
    proof {
        assert(x & 0xff < 256 && (x >> 8) & 0xff < 256 && (x >> 16) & 0xff < 256
            && (x >> 24) & 0xff < 256) by (bit_vector);
    }
    out.push((x & 0xff) as u8);
    out.push(((x >> 8) & 0xff) as u8);
    out.push(((x >> 16) & 0xff) as u8);
    out.push(((x >> 24) & 0xff) as u8);
    proof {
        assert(out@ =~= old(out)@ + spec_le32(x));
    }
}

/// Append the eight little-endian bytes of `x` to `out`.
pub fn push_le64(out: &mut Vec<u8>, x: u64)
    ensures
        final(out)@ == old(out)@ + spec_le64(x),
{
    proof {
        assert(x & 0xff < 256 && (x >> 8) & 0xff < 256 && (x >> 16) & 0xff < 256
            && (x >> 24) & 0xff < 256 && (x >> 32) & 0xff < 256 && (x >> 40) & 0xff < 256
            && (x >> 48) & 0xff < 256 && (x >> 56) & 0xff < 256) by (bit_vector);
    }
    out.push((x & 0xff) as u8);
    out.push(((x >> 8) & 0xff) as u8);
    out.push(((x >> 16) & 0xff) as u8);
    out.push(((x >> 24) & 0xff) as u8);
    out.push(((x >> 32) & 0xff) as u8);
    out.push(((x >> 40) & 0xff) as u8);
    out.push(((x >> 48) & 0xff) as u8);
    out.push(((x >> 56) & 0xff) as u8);
    proof {
        assert(out@ =~= old(out)@ + spec_le64(x));
    }
}

/// Read the little-endian 32-bit word at byte offset `at` of `b`.
pub fn read_u32(b: &Vec<u8>, at: usize) -> (x: u32)
    requires
        at + 4 <= b@.len(),
    ensures
        x == spec_u32_of(b@.subrange(at as int, at as int + 4)),
{
    let n = b.len();
    let x = (b[at] as u32) | ((b[at + 1] as u32) << 8) | ((b[at + 2] as u32) << 16)
        | ((b[at + 3] as u32) << 24);
    proof {
        let s = b@.subrange(at as int, at as int + 4);
        assert(s[0] == b@[at as int] && s[1] == b@[at as int + 1] && s[2] == b@[at as int + 2]
            && s[3] == b@[at as int + 3]);
    }
    x
}

/// Read the little-endian 64-bit word at byte offset `at` of `b`.
pub fn read_u64(b: &Vec<u8>, at: usize) -> (x: u64)
    requires
        at + 8 <= b@.len(),
    ensures
        x == spec_u64_of(b@.subrange(at as int, at as int + 8)),
{
    let n = b.len();
    let x = (b[at] as u64) | ((b[at + 1] as u64) << 8) | ((b[at + 2] as u64) << 16)
        | ((b[at + 3] as u64) << 24) | ((b[at + 4] as u64) << 32) | ((b[at + 5] as u64) << 40)
        | ((b[at + 6] as u64) << 48) | ((b[at + 7] as u64) << 56);
    proof {
        let s = b@.subrange(at as int, at as int + 8);
        assert(s[0] == b@[at as int] && s[1] == b@[at as int + 1] && s[2] == b@[at as int + 2]
            && s[3] == b@[at as int + 3] && s[4] == b@[at as int + 4] && s[5] == b@[at as int + 5]
            && s[6] == b@[at as int + 6] && s[7] == b@[at as int + 7]);
    }
    x
}

/// Copy `b[from..to]` into a fresh vector.
pub fn copy_range(b: &Vec<u8>, from: usize, to: usize) -> (r: Vec<u8>)
    requires
        from <= to <= b@.len(),
    ensures
        r@ == b@.subrange(from as int, to as int),
{
    let mut r: Vec<u8> = Vec::new();
    let mut i: usize = from;
    while i < to
        invariant
            from <= i <= to <= b@.len(),
            r@ == b@.subrange(from as int, i as int),
        decreases to - i,
    {
        r.push(b[i]);
        proof {
            assert(r@ =~= b@.subrange(from as int, i as int + 1));
        }
        i = i + 1;
    }
    r
}

/// The bytes of a frame carrying `kind` and `payload`: the opcode word, the
/// total length word (`8 + payload.len()`), then the payload.
pub open spec fn spec_frame(kind: u32, payload: Seq<u8>) -> Seq<u8>
    recommends
        payload.len() + 8 <= u32::MAX,
{
    spec_le32(kind) + spec_le32((payload.len() + 8) as u32) + payload
}

/// The opcode word of a received buffer.
pub open spec fn spec_frame_kind(buf: Seq<u8>) -> u32
    recommends
        buf.len() >= 8,
{
    spec_u32_of(buf.subrange(0, 4))
}

/// The total length word of a received buffer.
pub open spec fn spec_frame_len(buf: Seq<u8>) -> u32
    recommends
        buf.len() >= 8,
{
    spec_u32_of(buf.subrange(4, 8))
}

/// A raw protocol frame: an opcode and its payload bytes. The length word
/// is not stored; it is recomputed on write and checked on read.
#[derive(Debug, Clone)]
pub struct RawPacket {
    pub kind: u32,
    pub payload: Vec<u8>,
}

impl RawPacket {
    /// Pack an opcode and payload into a frame value.
    pub fn new(kind: u32, payload: Vec<u8>) -> (r: Self)
        ensures
            r.kind == kind,
            r.payload == payload,
    {
        Self { kind, payload }
    }

    /// Number of bytes this frame occupies on the wire: the eight header
    /// bytes plus the payload.
    fn len(&self) -> (r: usize)
        requires
            self.payload@.len() + 8 <= u32::MAX,
        ensures
            r == self.payload@.len() + 8,
    {
        self.payload.len() + 8
    }

    /// Parse the result of one blocking read. `buf` is the buffer handed to
    /// the read (sized to the largest frame the caller accepts) and `got`
    /// the number of bytes the read returned. The frame is accepted exactly
    /// when its length word is at least the eight header bytes and no more
    /// than the bytes actually received; otherwise the connection is broken.
    pub fn read(buf: &Vec<u8>, got: usize) -> (r: Result<Self, SaharaError>)
        requires
            8 <= buf@.len(),
            got <= buf@.len(),
        ensures
            match r {
                Ok(p) => {
                    &&& 8 <= spec_frame_len(buf@) <= got
                    &&& p.kind == spec_frame_kind(buf@)
                    &&& p.payload@ == buf@.subrange(8, spec_frame_len(buf@) as int)
                },
                Err(e) => {
                    &&& e == SaharaError::Broken
                    &&& !(8 <= spec_frame_len(buf@) <= got)
                },
            },
    {
        let kind = read_u32(buf, 0);
        let len = read_u32(buf, 4);
        if len < 8 || (len as usize) > got {
            return Err(SaharaError::Broken);
        }
        let payload = copy_range(buf, 8, len as usize);
        Ok(Self { kind, payload })
    }

    /// Encode this frame for the wire.
    pub fn write(&self) -> (r: Vec<u8>)
        requires
            self.payload@.len() + 8 <= u32::MAX,
        ensures
            r@ == spec_frame(self.kind, self.payload@),
            r@.len() == self.payload@.len() + 8,
    {
        let mut out: Vec<u8> = Vec::new();
        push_le32(&mut out, self.kind);
        push_le32(&mut out, self.len() as u32);
        proof {
            assert(out@ =~= spec_le32(self.kind)
                + spec_le32((self.payload@.len() + 8) as u32)
                + self.payload@.subrange(0, 0));
        }
        let mut i: usize = 0;
        while i < self.payload.len()
            invariant
                i <= self.payload@.len(),
                self.payload@.len() + 8 <= u32::MAX,
                out@ == spec_le32(self.kind)
                    + spec_le32((self.payload@.len() + 8) as u32)
                    + self.payload@.subrange(0, i as int),
            decreases self.payload@.len() - i,
        {
            out.push(self.payload[i]);
            proof {
                assert(out@ =~= spec_le32(self.kind)
                    + spec_le32((self.payload@.len() + 8) as u32)
                    + self.payload@.subrange(0, i as int + 1));
            }
            i = i + 1;
        }
        proof {
            assert(self.payload@.subrange(0, self.payload@.len() as int) =~= self.payload@);
            assert(out@ =~= spec_frame(self.kind, self.payload@));
        }
        out
    }

    /// Encode a frame with the given opcode and payload for the wire.
    pub fn send(kind: u32, payload: Vec<u8>) -> (r: Vec<u8>)
        requires
            payload@.len() + 8 <= u32::MAX,
        ensures
            r@ == spec_frame(kind, payload@),
            r@.len() == payload@.len() + 8,
    {
        RawPacket::new(kind, payload).write()
    }
}

/// Decoding a frame recovers what was encoded: the opcode word and length
/// word parse back, and the payload is the bytes past the header.
pub proof fn lemma_frame_round_trip(kind: u32, payload: Seq<u8>)
    requires
        payload.len() + 8 <= u32::MAX,
    ensures
        spec_frame(kind, payload).len() == payload.len() + 8,
        spec_frame_kind(spec_frame(kind, payload)) == kind,
        spec_frame_len(spec_frame(kind, payload)) == payload.len() + 8,
        spec_frame(kind, payload).subrange(8, payload.len() as int + 8) == payload,
{
    let buf = spec_frame(kind, payload);
    assert(buf.subrange(0, 4) =~= spec_le32(kind));
    assert(buf.subrange(4, 8) =~= spec_le32((payload.len() + 8) as u32));
    lemma_le32_round_trip(kind);
    lemma_le32_round_trip((payload.len() + 8) as u32);
    assert(buf.subrange(8, payload.len() as int + 8) =~= payload);
}

} // verus!
