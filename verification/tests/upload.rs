//! The image upload loop.

use sahara::error::EndTransferError;
use sahara::error::SaharaError;
use sahara::protocol::RawPacket;
use sahara::upload::ChunkRequest;
use sahara::upload::Upload;
use sahara::upload::UploadStep;
use sahara::upload::done_response;

fn words(ws: &[u32]) -> Vec<u8> {
    let mut out = Vec::new();
    for w in ws {
        out.extend_from_slice(&w.to_le_bytes());
    }
    out
}

fn chunk_frame(image_id: u32, offset: u32, length: u32) -> RawPacket {
    RawPacket::new(0x03, words(&[image_id, offset, length]))
}

fn expect_write(step: Result<UploadStep, SaharaError>) -> Vec<u8> {
    match step.unwrap() {
        UploadStep::Write(bytes) => bytes,
        _ => panic!("expected bytes to write"),
    }
}

#[test]
fn upload_short_program() {
    // A 20-byte program served as a 16-byte chunk, then an 8-byte chunk
    // that runs past the end and is padded with 0xFF.
    let program: Vec<u8> = (0u8..20).collect();
    let mut up = Upload::new(program.clone());

    let bytes = expect_write(up.handle(&chunk_frame(0, 0, 16)));
    assert_eq!(bytes, program[0..16].to_vec());

    let bytes = expect_write(up.handle(&chunk_frame(0, 16, 8)));
    let mut expected = program[16..20].to_vec();
    expected.extend_from_slice(&[0xFF, 0xFF, 0xFF, 0xFF]);
    assert_eq!(bytes, expected);

    let done = up.handle(&RawPacket::new(0x04, words(&[0, 0])));
    assert!(matches!(done.unwrap(), UploadStep::Finished));
}

#[test]
fn upload_chunks_are_slices_of_the_padded_program() {
    let program: Vec<u8> = vec![1, 2, 3, 4];
    let mut up = Upload::new(program);

    // Padding past the end yields 0xFF everywhere beyond the program.
    let bytes = expect_write(up.handle(&chunk_frame(0, 2, 6)));
    assert_eq!(bytes, vec![3, 4, 0xFF, 0xFF, 0xFF, 0xFF]);

    // An earlier range asked for again comes back unchanged.
    let bytes = expect_write(up.handle(&chunk_frame(0, 0, 4)));
    assert_eq!(bytes, vec![1, 2, 3, 4]);

    // A range entirely within the padding.
    let bytes = expect_write(up.handle(&chunk_frame(0, 6, 2)));
    assert_eq!(bytes, vec![0xFF, 0xFF]);
}

#[test]
fn upload_accepts_wide_chunk_requests() {
    // The 64-bit read-data frame (opcode 0x12) carries the same request in
    // three little-endian 64-bit words.
    let program: Vec<u8> = (0u8..8).collect();
    let mut up = Upload::new(program.clone());
    let mut payload = Vec::new();
    payload.extend_from_slice(&7u64.to_le_bytes());
    payload.extend_from_slice(&2u64.to_le_bytes());
    payload.extend_from_slice(&4u64.to_le_bytes());
    let bytes = expect_write(up.handle(&RawPacket::new(0x12, payload)));
    assert_eq!(bytes, program[2..6].to_vec());
}

#[test]
fn chunk_request_parsing() {
    let c = ChunkRequest::parse(&chunk_frame(7, 0x100, 0x40)).unwrap();
    assert_eq!(c, ChunkRequest { image_id: 7, offset: 0x100, length: 0x40 });

    let r = ChunkRequest::parse(&RawPacket::new(0x03, words(&[7, 0x100])));
    assert_eq!(r.unwrap_err(), SaharaError::Broken);

    let r = ChunkRequest::parse(&RawPacket::new(0x12, words(&[7, 0x100, 0x40])));
    assert_eq!(r.unwrap_err(), SaharaError::Broken);
}

#[test]
fn upload_rejects_overflowing_range() {
    let mut up = Upload::new(vec![0; 4]);
    let mut payload = Vec::new();
    payload.extend_from_slice(&0u64.to_le_bytes());
    payload.extend_from_slice(&u64::MAX.to_le_bytes());
    payload.extend_from_slice(&1u64.to_le_bytes());
    let r = up.handle(&RawPacket::new(0x12, payload));
    assert_eq!(r.unwrap_err(), SaharaError::Broken);
}

#[test]
fn upload_aborts_on_end_of_transfer_failure() {
    let mut up = Upload::new(vec![0; 4]);
    let r = up.handle(&RawPacket::new(0x04, words(&[0, 0x09])));
    assert_eq!(
        r.unwrap_err(),
        SaharaError::EndTransfer(EndTransferError::InvalidTxLength)
    );
}

#[test]
fn upload_rejects_unknown_opcode() {
    let mut up = Upload::new(vec![0; 4]);
    let r = up.handle(&RawPacket::new(0x0E, vec![]));
    assert_eq!(r.unwrap_err(), SaharaError::UnknownMessage(0x0E));
}

#[test]
fn upload_done_handshake() {
    let mut up = Upload::new(vec![0; 4]);
    let step = up.handle(&RawPacket::new(0x05, words(&[1])));
    let done = match step.unwrap() {
        UploadStep::DoneHandshake(d) => d,
        _ => panic!("expected the done handshake"),
    };
    assert_eq!(done.write(), vec![0x05, 0x00, 0x00, 0x00, 0x08, 0x00, 0x00, 0x00]);

    assert!(done_response(&RawPacket::new(0x06, words(&[0]))).is_ok());
    let r = done_response(&RawPacket::new(0x06, words(&[0x0B])));
    assert_eq!(
        r.unwrap_err(),
        SaharaError::EndTransfer(EndTransferError::GeneralTxRxError)
    );
    let r = done_response(&RawPacket::new(0x0E, words(&[0])));
    assert_eq!(r.unwrap_err(), SaharaError::UnknownMessage(0x0E));
}
