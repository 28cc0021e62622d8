//! Wire codec: frame encoding, parsing, and the little-endian scalars.

use sahara::error::SaharaError;
use sahara::protocol::RawPacket;
use sahara::protocol::push_le32;
use sahara::protocol::push_le64;
use sahara::protocol::read_u32;
use sahara::protocol::read_u64;

#[test]
fn frame_encoding_layout() {
    let bytes = RawPacket::send(0x0D, vec![0x02, 0x00, 0x00, 0x00]);
    assert_eq!(
        bytes,
        vec![0x0D, 0x00, 0x00, 0x00, 0x0C, 0x00, 0x00, 0x00, 0x02, 0x00, 0x00, 0x00]
    );
}

#[test]
fn frame_encoded_length_is_header_plus_payload() {
    for n in [0usize, 1, 7, 8, 40, 100] {
        let payload = vec![0xA5u8; n];
        let bytes = RawPacket::send(0x03, payload);
        assert_eq!(bytes.len(), 8 + n);
    }
}

#[test]
fn frame_round_trip() {
    let payload: Vec<u8> = (0u8..40).collect();
    let packet = RawPacket::new(0x0E, payload.clone());
    let bytes = packet.write();
    let got = bytes.len();
    let parsed = RawPacket::read(&bytes, got).unwrap();
    assert_eq!(parsed.kind, 0x0E);
    assert_eq!(parsed.payload, payload);
}

#[test]
fn frame_round_trip_empty_payload() {
    let bytes = RawPacket::send(0x07, vec![]);
    assert_eq!(bytes, vec![0x07, 0x00, 0x00, 0x00, 0x08, 0x00, 0x00, 0x00]);
    let parsed = RawPacket::read(&bytes, 8).unwrap();
    assert_eq!(parsed.kind, 0x07);
    assert!(parsed.payload.is_empty());
}

#[test]
fn frame_read_ignores_buffer_tail() {
    // A 16-byte frame read into a 48-byte buffer: the payload ends where
    // the length field says, not where the buffer does.
    let mut buf = RawPacket::send(0x04, vec![0, 0, 0, 0, 0x1B, 0, 0, 0]);
    let got = buf.len();
    buf.resize(48, 0xEE);
    let parsed = RawPacket::read(&buf, got).unwrap();
    assert_eq!(parsed.kind, 0x04);
    assert_eq!(parsed.payload, vec![0, 0, 0, 0, 0x1B, 0, 0, 0]);
}

#[test]
fn frame_read_rejects_short_read() {
    // Length field says 16 but only 12 bytes arrived.
    let mut buf = RawPacket::send(0x0E, vec![2, 0, 0, 0, 8, 0, 0, 0]);
    buf.truncate(12);
    buf.resize(16, 0);
    let r = RawPacket::read(&buf, 12);
    assert_eq!(r.unwrap_err(), SaharaError::Broken);
}

#[test]
fn frame_read_rejects_truncated_header() {
    // Only 4 of the 8 header bytes arrived.
    let buf = vec![0x07, 0, 0, 0, 8, 0, 0, 0];
    let r = RawPacket::read(&buf, 4);
    assert_eq!(r.unwrap_err(), SaharaError::Broken);
}

#[test]
fn frame_read_rejects_length_below_header() {
    let mut buf = vec![0x0B, 0, 0, 0, 4, 0, 0, 0];
    buf.resize(8, 0);
    let r = RawPacket::read(&buf, 8);
    assert_eq!(r.unwrap_err(), SaharaError::Broken);
}

#[test]
fn le32_round_trip() {
    for v in [0u32, 1, 0xFF, 0x1234_5678, 0xDEAD_BEEF, u32::MAX] {
        let mut buf: Vec<u8> = Vec::new();
        push_le32(&mut buf, v);
        assert_eq!(buf.len(), 4);
        assert_eq!(read_u32(&buf, 0), v);
    }
}

#[test]
fn le32_byte_order() {
    let mut buf: Vec<u8> = Vec::new();
    push_le32(&mut buf, 0x1234_5678);
    assert_eq!(buf, vec![0x78, 0x56, 0x34, 0x12]);
}

#[test]
fn le64_round_trip() {
    for v in [0u64, 1, 0x0102_0304_0506_0708, u64::MAX] {
        let mut buf: Vec<u8> = Vec::new();
        push_le64(&mut buf, v);
        assert_eq!(buf.len(), 8);
        assert_eq!(read_u64(&buf, 0), v);
    }
}
