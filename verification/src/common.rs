//! The four device operating modes and their numeric wire encoding.

use vstd::prelude::*;
use crate::error::UnknownModeError;

verus! {

/// Operating mode of the device. The numeric encoding (`TxPending = 0`,
/// `TxComplete = 1`, `MemoryDebug = 2`, `Command = 3`) is part of the wire
/// format: the device announces its mode in the hello frame and the host
/// asserts a mode in hello-response and switch-mode frames.
#[derive(Debug, Clone, Copy, PartialEq, Eq, Structural)]
pub enum Mode {
    TxPending,
    TxComplete,
    MemoryDebug,
    Command,
}

/// Numeric wire code of a mode.
pub open spec fn mode_code(m: Mode) -> u32 {
    match m {
        Mode::TxPending => 0,
        Mode::TxComplete => 1,
        Mode::MemoryDebug => 2,
        Mode::Command => 3,
    }
}

/// Which mode, if any, a numeric wire code denotes.
pub open spec fn mode_of_code(value: u32) -> Option<Mode> {
    if value == 0 {
        Some(Mode::TxPending)
    } else if value == 1 {
        Some(Mode::TxComplete)
    } else if value == 2 {
        Some(Mode::MemoryDebug)
    } else if value == 3 {
        Some(Mode::Command)
    } else {
        None
    }
}

impl Mode {
    /// Numeric wire code of this mode.
    pub fn to_u32(&self) -> (r: u32)
        ensures
            r == mode_code(*self),
    {
        match self {
            Mode::TxPending => 0,
            Mode::TxComplete => 1,
            Mode::MemoryDebug => 2,
            Mode::Command => 3,
        }
    }

    /// The mode as a four-byte little-endian word, as it stands in a frame
    /// payload.
    pub fn to_le_bytes(&self) -> (r: [u8; 4])
        ensures
            r@ == crate::protocol::spec_le32(mode_code(*self)),
    {
        let code: u8 = match self {
            Mode::TxPending => 0,
            Mode::TxComplete => 1,
            Mode::MemoryDebug => 2,
            Mode::Command => 3,
        };
        let r: [u8; 4] = [code, 0, 0, 0];
        proof {
            crate::protocol::lemma_le32_small(mode_code(*self));
            assert(r@ =~= crate::protocol::spec_le32(mode_code(*self)));
        }
        r
    }

    /// Lower-case name of the mode, for messages.
    pub fn name(&self) -> (r: &'static str)
        ensures
            (*self == Mode::TxPending ==> r@ == "tx_pending"@) && (*self == Mode::TxComplete
                ==> r@ == "tx_complete"@) && (*self == Mode::MemoryDebug ==> r@
                == "memory_debug"@) && (*self == Mode::Command ==> r@ == "command"@),
    {
        match self {
            Mode::TxPending => "tx_pending",
            Mode::TxComplete => "tx_complete",
            Mode::MemoryDebug => "memory_debug",
            Mode::Command => "command",
        }
    }

    /// Decode a numeric mode word received from the device. Codes outside
    /// `0..=3` are rejected as an unknown mode.
    pub fn try_from(value: u32) -> (r: Result<Mode, UnknownModeError>)
        ensures
            match r {
                Ok(m) => mode_of_code(value) == Some(m),
                Err(e) => mode_of_code(value) is None && e.0 == value,
            },
    {
        match value {
            0 => Ok(Mode::TxPending),
            1 => Ok(Mode::TxComplete),
            2 => Ok(Mode::MemoryDebug),
            3 => Ok(Mode::Command),
            _ => Err(UnknownModeError(value)),
        }
    }
}

} // verus!
