//! Host-side client library for the Sahara boot-stage protocol spoken by
//! Qualcomm application processors over a serial line.
//!
//! The library contains the protocol logic only: the framed little-endian
//! wire codec, the mode-transition state machine, command execution and the
//! decoders for the typed info commands, the memory-read exchange, and the
//! image upload loop. All byte-level I/O on the serial port is left to the
//! embedding program, which feeds received frames in and carries produced
//! frames out.

pub mod common;
pub mod error;
pub mod protocol;
pub mod info;
pub mod mem;
pub mod session;
pub mod upload;

pub use common::Mode;
pub use info::HwId;
pub use info::SaharaInfoExt;
pub use mem::SaharaMemExt;
pub use protocol::RawPacket;
pub use session::Sahara;
