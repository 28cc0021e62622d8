//! Typed info commands: decoders for the payloads returned by command
//! execution, and the signing-key-hash trimmer.

use vstd::prelude::*;
use crate::error::SaharaError;
use crate::protocol::read_u32;
use crate::protocol::spec_u32_of;

verus! {

// Command ids consumed by command execution.
pub const CMD_SERIAL_NUM: u32 = 0x01;
pub const CMD_MSM_HWID: u32 = 0x02;
pub const CMD_OEM_PKHASH: u32 = 0x03;
pub const CMD_SBL_VERSION: u32 = 0x07;

/// Hardware identity reported by the device: the vendor id and the SoC id.
#[derive(Debug, Clone, Copy, PartialEq, Eq, Structural)]
pub struct HwId {
    pub vendor: u32,
    pub msm: u32,
}

impl HwId {
    /// Decode a hardware-id result payload: the vendor id is the first
    /// little-endian word and the SoC id the second.
    pub fn decode(payload: &Vec<u8>) -> (r: HwId)
        requires
            payload@.len() >= 8,
        ensures
            r.vendor == spec_u32_of(payload@.subrange(0, 4)),
            r.msm == spec_u32_of(payload@.subrange(4, 8)),
    {
        HwId { vendor: read_u32(payload, 0), msm: read_u32(payload, 4) }
    }
}

/// Decode a result payload that carries a single little-endian word, as the
/// serial-number and secondary-bootloader-version commands return.
pub fn decode_word(payload: &Vec<u8>) -> (r: u32)
    requires
        payload@.len() >= 4,
    ensures
        r == spec_u32_of(payload@.subrange(0, 4)),
{
    read_u32(payload, 0)
}

/// Whether the four bytes at `i` repeat the first four bytes of `s`.
pub open spec fn repeats_prefix(s: Seq<u8>, i: int) -> bool {
    s.subrange(i, i + 4) == s.subrange(0, 4)
}

/// The first position at or past `i` whose four-byte window repeats the
/// prefix, if any.
pub open spec fn first_repeat_from(s: Seq<u8>, i: int) -> Option<int>
    decreases s.len() - i,
{
    if i < 0 || i + 4 > s.len() {
        None
    } else if repeats_prefix(s, i) {
        Some(i)
    } else {
        first_repeat_from(s, i + 1)
    }
}

/// Length of the hash within a signing-key-hash payload: everything before
/// the first recurrence of the four-byte prefix, or the whole payload when
/// the prefix never recurs.
pub open spec fn spec_hash_len(s: Seq<u8>) -> int {
    match first_repeat_from(s, 4) {
        Some(i) => i,
        None => s.len() as int,
    }
}

/// The signing-key hash with the device's tail padding removed.
pub open spec fn spec_pkhash_trim(s: Seq<u8>) -> Seq<u8> {
    s.subrange(0, spec_hash_len(s))
}

/// What a first repeat position means: it repeats the prefix, lies in
/// range, and nothing before it does; and when there is none, no window at
/// or past `i` repeats the prefix.
proof fn lemma_first_repeat_from(s: Seq<u8>, i: int)
    requires
        0 <= i,
    ensures
        match first_repeat_from(s, i) {
            Some(j) => {
                &&& i <= j
                &&& j + 4 <= s.len()
                &&& repeats_prefix(s, j)
                &&& forall|k: int| i <= k < j ==> !repeats_prefix(s, k)
            },
            None => forall|k: int| i <= k && k + 4 <= s.len() ==> !repeats_prefix(s, k),
        },
    decreases s.len() - i,
{
    if i + 4 > s.len() {
    } else if repeats_prefix(s, i) {
    } else {
        lemma_first_repeat_from(s, i + 1);
    }
}

/// Trim the tail padding off a signing-key-hash payload. The device
/// sometimes pads the hash with repetitions of its first four-byte word;
/// the hash ends where the first repetition of the prefix begins, searched
/// in sliding four-byte windows from byte 4 on.
pub fn pkhash_trim(payload: &Vec<u8>) -> (r: Vec<u8>)
    requires
        payload@.len() >= 4,
    ensures
        r@ == spec_pkhash_trim(payload@),
{
    let n = payload.len();
    let mut i: usize = 4;
    while i <= n - 4
        invariant
            4 <= i,
            i <= n,
            4 <= n,
            n == payload@.len(),
            first_repeat_from(payload@, 4) == first_repeat_from(payload@, i as int),
        decreases n - i,
    {
        if payload[i] == payload[0] && payload[i + 1] == payload[1] && payload[i + 2] == payload[2]
            && payload[i + 3] == payload[3] {
            proof {
                let s = payload@;
                assert(s.subrange(i as int, i as int + 4) =~= s.subrange(0, 4));
                assert(first_repeat_from(s, i as int) == Some(i as int));
            }
            return crate::protocol::copy_range(payload, 0, i);
        }
        proof {
            let s = payload@;
            let w = s.subrange(i as int, i as int + 4);
            let p = s.subrange(0, 4);
            if repeats_prefix(s, i as int) {
                assert(w[0] == p[0] && w[1] == p[1] && w[2] == p[2] && w[3] == p[3]);
                assert(false);
            }
        }
        i = i + 1;
    }
    proof {
        assert(first_repeat_from(payload@, i as int) is None);
        assert(payload@.subrange(0, payload@.len() as int) =~= payload@);
    }
    crate::protocol::copy_range(payload, 0, n)
}

/// The trimmer is idempotent: trimming its own output changes nothing.
pub proof fn lemma_pkhash_trim_idempotent(s: Seq<u8>)
    requires
        s.len() >= 4,
    ensures
        spec_pkhash_trim(spec_pkhash_trim(s)) == spec_pkhash_trim(s),
{
    lemma_first_repeat_from(s, 4);
    let e = spec_hash_len(s);
    let t = spec_pkhash_trim(s);
    assert(4 <= e <= s.len());
    assert(t.len() == e);
    assert(t.subrange(0, 4) =~= s.subrange(0, 4));
    assert forall|k: int| 4 <= k && k + 4 <= e implies !repeats_prefix(t, k) by {
        assert(t.subrange(k, k + 4) =~= s.subrange(k, k + 4));
        assert(!repeats_prefix(s, k));
        assert(t.subrange(0, 4) == s.subrange(0, 4));
    }
    lemma_first_repeat_from(t, 4);
    match first_repeat_from(t, 4) {
        Some(j) => {
            assert(!repeats_prefix(t, j));
            assert(false);
        },
        None => {},
    }
    assert(spec_hash_len(t) == t.len());
    assert(spec_pkhash_trim(t) =~= t);
}

/// Typed info operations layered on command execution. The embedding
/// program, which owns the port, implements these by running the
/// execute-command exchange and decoding the result payload with the
/// functions of this module.
pub trait SaharaInfoExt {
    /// Device serial number (command 0x01, first result word).
    fn serial_num(&mut self) -> Result<u32, SaharaError>;

    /// Hardware identity (command 0x02).
    fn hwid(&mut self) -> Result<HwId, SaharaError>;

    /// OEM signing-key hash (command 0x03), tail padding trimmed.
    fn pkhash(&mut self) -> Result<Vec<u8>, SaharaError>;

    /// Secondary-bootloader version (command 0x07, first result word).
    fn sbl_version(&mut self) -> Result<u32, SaharaError>;
}

} // verus!
