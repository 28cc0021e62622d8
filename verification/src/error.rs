//! Error values surfaced by the protocol core.
//!
//! All transport failures are folded into a single `Io` kind: the byte-level
//! reads and writes themselves happen outside this library, and the embedding
//! program maps whatever its port reports onto these values.

use vstd::prelude::*;

verus! {

/// A mode word received from the device does not denote any of the four
/// modes. Carries the offending word.
#[derive(Debug, Clone, Copy, PartialEq, Eq, Structural)]
pub struct UnknownModeError(pub u32);

/// Reason code carried by an end-of-transfer frame (opcode 0x04), the
/// device-initiated abort. Codes `0x00..=0x28` have named meanings; anything
/// else is kept verbatim as `Unknown`.
#[derive(Debug, Clone, Copy, PartialEq, Eq, Structural)]
pub enum EndTransferError {
    InvalidCommand,
    ProtocolMismatch,
    InvalidTargetProtocol,
    InvalidHostProtocol,
    InvalidPacketSize,
    UnexpectedImageId,
    InvalidHeaderSize,
    InvalidDataSize,
    InvalidImageType,
    InvalidTxLength,
    InvalidRxLength,
    GeneralTxRxError,
    ReadDataError,
    UnsupportedNumPhdrs,
    InvalidPhdrSize,
    MultipleSharedSegments,
    UninitPhdrLocation,
    InvalidDestAddress,
    InvalidImageHeaderSize,
    InvalidElfHeader,
    UnknownHostError,
    TimeoutRx,
    TimeoutTx,
    InvalidHostMode,
    InvalidMemoryRead,
    InvalidDataSizeRequest,
    MemoryDebugNotSupported,
    InvalidModeSwitch,
    CommandExecuteFailure,
    ExecuteCommandInvalidParam,
    ExecuteCommandUnsupported,
    InvalidClientCommand,
    HashTableAuthFailure,
    HashVerificationFailure,
    HashTableNotFound,
    TargetInitFailure,
    ImageAuthFailure,
    InvalidElfHashTableSize,
    InvalidImageHashTableSignature,
    InvalidImageHashTableType,
    HardwareBulkTransferError,
    Unknown(u32),
}

/// The error named by an end-of-transfer reason code.
pub open spec fn spec_end_transfer_error(code: u32) -> EndTransferError {
    if code == 0x00 { EndTransferError::InvalidCommand }
    else if code == 0x01 { EndTransferError::ProtocolMismatch }
    else if code == 0x02 { EndTransferError::InvalidTargetProtocol }
    else if code == 0x03 { EndTransferError::InvalidHostProtocol }
    else if code == 0x04 { EndTransferError::InvalidPacketSize }
    else if code == 0x05 { EndTransferError::UnexpectedImageId }
    else if code == 0x06 { EndTransferError::InvalidHeaderSize }
    else if code == 0x07 { EndTransferError::InvalidDataSize }
    else if code == 0x08 { EndTransferError::InvalidImageType }
    else if code == 0x09 { EndTransferError::InvalidTxLength }
    else if code == 0x0A { EndTransferError::InvalidRxLength }
    else if code == 0x0B { EndTransferError::GeneralTxRxError }
    else if code == 0x0C { EndTransferError::ReadDataError }
    else if code == 0x0D { EndTransferError::UnsupportedNumPhdrs }
    else if code == 0x0E { EndTransferError::InvalidPhdrSize }
    else if code == 0x0F { EndTransferError::MultipleSharedSegments }
    else if code == 0x10 { EndTransferError::UninitPhdrLocation }
    else if code == 0x11 { EndTransferError::InvalidDestAddress }
    else if code == 0x12 { EndTransferError::InvalidImageHeaderSize }
    else if code == 0x13 { EndTransferError::InvalidElfHeader }
    else if code == 0x14 { EndTransferError::UnknownHostError }
    else if code == 0x15 { EndTransferError::TimeoutRx }
    else if code == 0x16 { EndTransferError::TimeoutTx }
    else if code == 0x17 { EndTransferError::InvalidHostMode }
    else if code == 0x18 { EndTransferError::InvalidMemoryRead }
    else if code == 0x19 { EndTransferError::InvalidDataSizeRequest }
    else if code == 0x1A { EndTransferError::MemoryDebugNotSupported }
    else if code == 0x1B { EndTransferError::InvalidModeSwitch }
    else if code == 0x1C { EndTransferError::CommandExecuteFailure }
    else if code == 0x1D { EndTransferError::ExecuteCommandInvalidParam }
    else if code == 0x1E { EndTransferError::ExecuteCommandUnsupported }
    else if code == 0x1F { EndTransferError::InvalidClientCommand }
    else if code == 0x20 { EndTransferError::HashTableAuthFailure }
    else if code == 0x21 { EndTransferError::HashVerificationFailure }
    else if code == 0x22 { EndTransferError::HashTableNotFound }
    else if code == 0x23 { EndTransferError::TargetInitFailure }
    else if code == 0x24 { EndTransferError::ImageAuthFailure }
    else if code == 0x25 { EndTransferError::InvalidElfHashTableSize }
    else if code == 0x26 { EndTransferError::InvalidImageHashTableSignature }
    else if code == 0x27 { EndTransferError::InvalidImageHashTableType }
    else if code == 0x28 { EndTransferError::HardwareBulkTransferError }
    else { EndTransferError::Unknown(code) }
}

impl EndTransferError {
    /// Decode a reason code received in an end-of-transfer frame.
    pub fn from_code(code: u32) -> (r: EndTransferError)
        ensures
            r == spec_end_transfer_error(code),
    {
        match code {
            0x00 => EndTransferError::InvalidCommand,
            0x01 => EndTransferError::ProtocolMismatch,
            0x02 => EndTransferError::InvalidTargetProtocol,
            0x03 => EndTransferError::InvalidHostProtocol,
            0x04 => EndTransferError::InvalidPacketSize,
            0x05 => EndTransferError::UnexpectedImageId,
            0x06 => EndTransferError::InvalidHeaderSize,
            0x07 => EndTransferError::InvalidDataSize,
            0x08 => EndTransferError::InvalidImageType,
            0x09 => EndTransferError::InvalidTxLength,
            0x0A => EndTransferError::InvalidRxLength,
            0x0B => EndTransferError::GeneralTxRxError,
            0x0C => EndTransferError::ReadDataError,
            0x0D => EndTransferError::UnsupportedNumPhdrs,
            0x0E => EndTransferError::InvalidPhdrSize,
            0x0F => EndTransferError::MultipleSharedSegments,
            0x10 => EndTransferError::UninitPhdrLocation,
            0x11 => EndTransferError::InvalidDestAddress,
            0x12 => EndTransferError::InvalidImageHeaderSize,
            0x13 => EndTransferError::InvalidElfHeader,
            0x14 => EndTransferError::UnknownHostError,
            0x15 => EndTransferError::TimeoutRx,
            0x16 => EndTransferError::TimeoutTx,
            0x17 => EndTransferError::InvalidHostMode,
            0x18 => EndTransferError::InvalidMemoryRead,
            0x19 => EndTransferError::InvalidDataSizeRequest,
            0x1A => EndTransferError::MemoryDebugNotSupported,
            0x1B => EndTransferError::InvalidModeSwitch,
            0x1C => EndTransferError::CommandExecuteFailure,
            0x1D => EndTransferError::ExecuteCommandInvalidParam,
            0x1E => EndTransferError::ExecuteCommandUnsupported,
            0x1F => EndTransferError::InvalidClientCommand,
            0x20 => EndTransferError::HashTableAuthFailure,
            0x21 => EndTransferError::HashVerificationFailure,
            0x22 => EndTransferError::HashTableNotFound,
            0x23 => EndTransferError::TargetInitFailure,
            0x24 => EndTransferError::ImageAuthFailure,
            0x25 => EndTransferError::InvalidElfHashTableSize,
            0x26 => EndTransferError::InvalidImageHashTableSignature,
            0x27 => EndTransferError::InvalidImageHashTableType,
            0x28 => EndTransferError::HardwareBulkTransferError,
            _ => EndTransferError::Unknown(code),
        }
    }
}

/// Failure of a protocol exchange.
#[derive(Debug, Clone, Copy, PartialEq, Eq, Structural)]
pub enum SaharaError {
    /// A transport read or write failed or timed out. Raised by the
    /// embedding program, never by the protocol core itself.
    Io,
    /// A mode word received from the device does not decode.
    UnknownMode(u32),
    /// A received opcode is not the one expected at this step.
    UnknownMessage(u32),
    /// The device aborted the exchange with an end-of-transfer frame.
    EndTransfer(EndTransferError),
    /// A frame's length field disagrees with the bytes received.
    Broken,
    /// The raw-byte phase of an exchange returned fewer bytes than announced.
    InvalidPayloadLength { expected: u64, got: u64 },
}

/// Failure of one framed read, as the embedding program's reader reports it.
#[derive(Debug, Clone, Copy, PartialEq, Eq, Structural)]
pub enum ReadError {
    /// Nothing could be read from the port.
    Empty,
    /// The length of the read data does not match the expected length.
    LengthMismatch { expected: u32, got: usize },
    /// The serial layer failed.
    Serial,
    /// The transport failed.
    Io,
}

} // verus!
