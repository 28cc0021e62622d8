//! Command execution and the typed info decoders.

use sahara::HwId;
use sahara::Mode;
use sahara::Sahara;
use sahara::error::EndTransferError;
use sahara::error::SaharaError;
use sahara::info::CMD_MSM_HWID;
use sahara::info::decode_word;
use sahara::info::pkhash_trim;
use sahara::protocol::RawPacket;
use sahara::session::exec_data;
use sahara::session::exec_response_length;

fn words(ws: &[u32]) -> Vec<u8> {
    let mut out = Vec::new();
    for w in ws {
        out.extend_from_slice(&w.to_le_bytes());
    }
    out
}

fn command_session() -> Sahara {
    let mut session = Sahara::connect(&RawPacket::new(0x01, words(&[2, 1, 0, 0, 0, 0, 0, 0, 0, 0])))
        .unwrap();
    session.change_mode_start(Mode::Command);
    session
        .change_mode_ack(Mode::Command, &RawPacket::new(0x0B, vec![]))
        .unwrap();
    session
}

#[test]
fn exec_hwid_exchange() {
    let session = command_session();

    // Execute-command frame for the hardware-id command.
    let req = session.exec_request(CMD_MSM_HWID);
    assert_eq!(
        req.write(),
        vec![0x0D, 0x00, 0x00, 0x00, 0x0C, 0x00, 0x00, 0x00, 0x02, 0x00, 0x00, 0x00]
    );

    // Device announces an 8-byte result.
    let resp = RawPacket::new(0x0E, words(&[2, 8]));
    let len = exec_response_length(&resp).unwrap();
    assert_eq!(len, 8);

    // Execute-data-request frame.
    let req = session.exec_data_request(CMD_MSM_HWID);
    assert_eq!(
        req.write(),
        vec![0x0F, 0x00, 0x00, 0x00, 0x0C, 0x00, 0x00, 0x00, 0x02, 0x00, 0x00, 0x00]
    );

    // The raw result bytes arrive unframed.
    let raw = vec![0xAA, 0xBB, 0xCC, 0xDD, 0x11, 0x22, 0x33, 0x44];
    let data = exec_data(raw, 8).unwrap();
    let hwid = HwId::decode(&data);
    assert_eq!(hwid, HwId { vendor: 0xDDCCBBAA, msm: 0x44332211 });
}

#[test]
fn exec_response_rejects_wrong_opcode() {
    let r = exec_response_length(&RawPacket::new(0x0B, vec![]));
    assert_eq!(r.unwrap_err(), SaharaError::UnknownMessage(0x0B));
}

#[test]
fn exec_response_rejects_short_payload() {
    let r = exec_response_length(&RawPacket::new(0x0E, vec![2, 0, 0, 0]));
    assert_eq!(r.unwrap_err(), SaharaError::Broken);
}

#[test]
fn exec_response_surfaces_abort() {
    let r = exec_response_length(&RawPacket::new(0x04, words(&[0, 0x1C])));
    assert_eq!(
        r.unwrap_err(),
        SaharaError::EndTransfer(EndTransferError::CommandExecuteFailure)
    );
}

#[test]
fn exec_data_rejects_short_result() {
    let r = exec_data(vec![0; 8], 4);
    assert_eq!(
        r.unwrap_err(),
        SaharaError::InvalidPayloadLength { expected: 8, got: 4 }
    );
}

#[test]
fn exec_data_accepts_exact_result() {
    let data = exec_data(vec![9, 8, 7], 3).unwrap();
    assert_eq!(data, vec![9, 8, 7]);
    let empty = exec_data(vec![], 0).unwrap();
    assert!(empty.is_empty());
}

#[test]
fn decode_single_word() {
    assert_eq!(decode_word(&vec![0x2A, 0x00, 0x00, 0x00]), 42);
    assert_eq!(decode_word(&vec![0x78, 0x56, 0x34, 0x12, 0xFF]), 0x12345678);
}

#[test]
fn pkhash_trimming() {
    // The prefix DE AD BE EF recurs at window offset 8, so the hash is the
    // first 12 bytes.
    let payload = vec![
        0xDE, 0xAD, 0xBE, 0xEF, 0x11, 0x22, 0x33, 0x44, 0x55, 0x66, 0x77, 0x88, 0xDE, 0xAD, 0xBE,
        0xEF,
    ];
    let trimmed = pkhash_trim(&payload);
    assert_eq!(
        trimmed,
        vec![0xDE, 0xAD, 0xBE, 0xEF, 0x11, 0x22, 0x33, 0x44, 0x55, 0x66, 0x77, 0x88]
    );
}

#[test]
fn pkhash_without_recurrence_is_kept_whole() {
    let payload = vec![0xDE, 0xAD, 0xBE, 0xEF, 0x11, 0x22, 0x33, 0x44];
    assert_eq!(pkhash_trim(&payload), payload);
}

#[test]
fn pkhash_trimming_is_idempotent() {
    let payload = vec![
        0xDE, 0xAD, 0xBE, 0xEF, 0x11, 0x22, 0x33, 0x44, 0x55, 0x66, 0x77, 0x88, 0xDE, 0xAD, 0xBE,
        0xEF,
    ];
    let once = pkhash_trim(&payload);
    let twice = pkhash_trim(&once);
    assert_eq!(twice, once);
}

#[test]
fn pkhash_trims_at_first_recurrence() {
    // The prefix recurs unaligned at window offset 1 already.
    let payload = vec![0x01, 0x01, 0x01, 0x01, 0x02, 0x01, 0x01, 0x01, 0x01];
    let trimmed = pkhash_trim(&payload);
    assert_eq!(trimmed, vec![0x01, 0x01, 0x01, 0x01, 0x02]);
}
