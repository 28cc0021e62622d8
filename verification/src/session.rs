//! The session: connection state and the mode-transition state machine.
//!
//! A session holds the mode last asserted by either side, the protocol
//! version announced by the device, and whether the host has already sent
//! its first hello-response (`active`). The functions here produce the
//! frames the host must send and consume the frames the device answers
//! with; the embedding program moves the bytes. Every exchange follows the
//! same discipline: a frame received from the device is first tested for an
//! end-of-transfer abort (opcode 0x04), whose second payload word names the
//! reason.

use vstd::prelude::*;
use crate::common::Mode;
use crate::common::mode_code;
use crate::common::mode_of_code;
use crate::error::EndTransferError;
use crate::error::SaharaError;
use crate::error::spec_end_transfer_error;
use crate::protocol::OP_END_TRANSFER;
use crate::protocol::OP_EXECUTE;
use crate::protocol::OP_EXECUTE_DATA;
use crate::protocol::OP_EXECUTE_RESPONSE;
use crate::protocol::OP_HELLO;
use crate::protocol::OP_HELLO_RESPONSE;
use crate::protocol::OP_MODE_ACK;
use crate::protocol::OP_RESET;
use crate::protocol::OP_SWITCH_MODE;
use crate::protocol::RawPacket;
use crate::protocol::push_le32;
use crate::protocol::read_u32;
use crate::protocol::spec_le32;
use crate::protocol::spec_u32_of;

verus! {

/// Connection state of one session. The port itself is owned by the
/// embedding program; the session records what both sides have agreed on.
#[derive(Debug, Clone, Copy, PartialEq, Eq, Structural)]
pub struct Sahara {
    /// Mode last asserted by either side, initialized from the device's
    /// opening hello.
    pub mode: Mode,
    /// Protocol version announced by the device in hello; echoed back in
    /// every subsequent hello-response.
    pub version: u32,
    /// False until the host has sent its first hello-response, true
    /// thereafter.
    pub active: bool,
}

/// The abort carried by an end-of-transfer frame with the given payload:
/// the reason named by the second payload word, or a broken frame if the
/// payload cannot hold one.
pub open spec fn spec_end_transfer_abort(payload: Seq<u8>) -> SaharaError {
    if payload.len() >= 8 {
        SaharaError::EndTransfer(spec_end_transfer_error(spec_u32_of(payload.subrange(4, 8))))
    } else {
        SaharaError::Broken
    }
}

/// Outcome of first testing a received frame for an end-of-transfer abort.
pub open spec fn spec_end_transfer_check(kind: u32, payload: Seq<u8>) -> Result<(), SaharaError> {
    if kind == OP_END_TRANSFER {
        Err(spec_end_transfer_abort(payload))
    } else {
        Ok(())
    }
}

/// Test a received frame for an end-of-transfer abort (opcode 0x04) and
/// decode its reason.
pub fn check_end_transfer(pkt: &RawPacket) -> (r: Result<(), SaharaError>)
    ensures
        r == spec_end_transfer_check(pkt.kind, pkt.payload@),
{
    if pkt.kind == OP_END_TRANSFER {
        if pkt.payload.len() >= 8 {
            let code = read_u32(&pkt.payload, 4);
            Err(SaharaError::EndTransfer(EndTransferError::from_code(code)))
        } else {
            Err(SaharaError::Broken)
        }
    } else {
        Ok(())
    }
}

/// What the opening frame yields: a fresh session, or the exact error.
pub open spec fn spec_connect(kind: u32, payload: Seq<u8>) -> Result<Sahara, SaharaError> {
    if kind == OP_END_TRANSFER {
        Err(spec_end_transfer_abort(payload))
    } else if kind != OP_HELLO {
        Err(SaharaError::UnknownMessage(kind))
    } else if payload.len() < 16 {
        Err(SaharaError::Broken)
    } else {
        let word = spec_u32_of(payload.subrange(12, 16));
        match mode_of_code(word) {
            Some(m) => Ok(
                Sahara {
                    mode: m,
                    version: spec_u32_of(payload.subrange(0, 4)),
                    active: false,
                },
            ),
            None => Err(SaharaError::UnknownMode(word)),
        }
    }
}

/// Payload of a hello-response frame: the echoed version, compatible
/// version 1, status 0, the asserted mode, and six ascending reserved
/// words.
pub open spec fn spec_hello_response_payload(version: u32, target: Mode) -> Seq<u8> {
    spec_le32(version) + spec_le32(1) + spec_le32(0) + spec_le32(mode_code(target))
        + spec_le32(1) + spec_le32(2) + spec_le32(3) + spec_le32(4) + spec_le32(5) + spec_le32(6)
}

/// Build the hello-response frame (opcode 0x02) asserting `target` mode and
/// echoing the device's announced `version`.
pub fn hello_response(version: u32, target: Mode) -> (r: RawPacket)
    ensures
        r.kind == OP_HELLO_RESPONSE,
        r.payload@ == spec_hello_response_payload(version, target),
        r.payload@.len() == 40,
{
    let mut p: Vec<u8> = Vec::new();
    push_le32(&mut p, version);
    push_le32(&mut p, 1);
    push_le32(&mut p, 0);
    push_le32(&mut p, target.to_u32());
    push_le32(&mut p, 1);
    push_le32(&mut p, 2);
    push_le32(&mut p, 3);
    push_le32(&mut p, 4);
    push_le32(&mut p, 5);
    push_le32(&mut p, 6);
    proof {
        assert(p@ =~= spec_hello_response_payload(version, target));
    }
    RawPacket::new(OP_HELLO_RESPONSE, p)
}

/// What one mode-change call puts on the wire.
#[derive(Debug)]
pub enum ModeChangeStep {
    /// The target equals the current mode: nothing is sent.
    Noop,
    /// The hello-response frame to send. The device answers with an 8-byte
    /// mode-change-ack; hand that frame to [`Sahara::change_mode_ack`].
    AwaitAck(RawPacket),
    /// The switch-mode frame to send. The device sends no acknowledgement;
    /// the session state is already updated.
    Sent(RawPacket),
}

/// Abstract kind of frame a mode change sends.
#[derive(Debug, Clone, Copy, PartialEq, Eq, Structural)]
pub enum SendKind {
    Nothing,
    HelloResponse,
    SwitchMode,
}

/// Which kind of frame a mode change from state `s` to `target` sends.
pub open spec fn spec_send_kind(s: Sahara, target: Mode) -> SendKind {
    if s.mode == target {
        SendKind::Nothing
    } else if !s.active {
        SendKind::HelloResponse
    } else {
        SendKind::SwitchMode
    }
}

/// Session state after a successful mode change to `target`.
pub open spec fn spec_mode_change(s: Sahara, target: Mode) -> Sahara {
    Sahara { mode: target, version: s.version, active: s.active || s.mode != target }
}

impl Sahara {
    /// Build a session from the device's opening hello frame (opcode 0x01,
    /// expected as a 48-byte read): the version is the first payload word
    /// and the mode the fourth. The new session is not yet active.
    pub fn connect(hello: &RawPacket) -> (r: Result<Sahara, SaharaError>)
        ensures
            r == spec_connect(hello.kind, hello.payload@),
    {
        match check_end_transfer(hello) {
            Err(e) => {
                return Err(e);
            },
            Ok(()) => {},
        }
        if hello.kind != OP_HELLO {
            return Err(SaharaError::UnknownMessage(hello.kind));
        }
        if hello.payload.len() < 16 {
            return Err(SaharaError::Broken);
        }
        let word = read_u32(&hello.payload, 12);
        match Mode::try_from(word) {
            Ok(m) => Ok(Sahara { mode: m, version: read_u32(&hello.payload, 0), active: false }),
            Err(e) => Err(SaharaError::UnknownMode(e.0)),
        }
    }

    /// Begin a mode change. If the target equals the current mode nothing
    /// is sent. An inactive session sends a hello-response and must wait
    /// for the mode-change-ack before its state changes; an active session
    /// sends a switch-mode frame, which the device acknowledges only
    /// implicitly, and the state changes at once.
    pub fn change_mode_start(&mut self, target: Mode) -> (r: ModeChangeStep)
        ensures
            ({
                let k = spec_send_kind(*old(self), target);
                match r {
                    ModeChangeStep::Noop => {
                        &&& k == SendKind::Nothing
                        &&& *final(self) == *old(self)
                    },
                    ModeChangeStep::AwaitAck(pkt) => {
                        &&& k == SendKind::HelloResponse
                        &&& pkt.kind == OP_HELLO_RESPONSE
                        &&& pkt.payload@ == spec_hello_response_payload(old(self).version, target)
                        &&& *final(self) == *old(self)
                    },
                    ModeChangeStep::Sent(pkt) => {
                        &&& k == SendKind::SwitchMode
                        &&& pkt.kind == OP_SWITCH_MODE
                        &&& pkt.payload@ == spec_le32(mode_code(target))
                        &&& *final(self) == spec_mode_change(*old(self), target)
                    },
                }
            }),
    {
        if self.mode == target {
            ModeChangeStep::Noop
        } else if !self.active {
            ModeChangeStep::AwaitAck(hello_response(self.version, target))
        } else {
            let mut p: Vec<u8> = Vec::new();
            push_le32(&mut p, target.to_u32());
            self.mode = target;
            ModeChangeStep::Sent(RawPacket::new(OP_SWITCH_MODE, p))
        }
    }

    /// Complete an inactive-session mode change with the frame read back
    /// after the hello-response. On the mode-change-ack (opcode 0x0B) the
    /// session becomes active in the target mode; on anything else the
    /// state is unchanged and the exact error is returned.
    pub fn change_mode_ack(&mut self, target: Mode, ack: &RawPacket) -> (r: Result<(), SaharaError>)
        ensures
            match r {
                Ok(()) => {
                    &&& ack.kind == OP_MODE_ACK
                    &&& *final(self) == (Sahara {
                        mode: target,
                        version: old(self).version,
                        active: true,
                    })
                },
                Err(e) => {
                    &&& *final(self) == *old(self)
                    &&& ack.kind != OP_MODE_ACK
                    &&& e == (if ack.kind == OP_END_TRANSFER {
                        spec_end_transfer_abort(ack.payload@)
                    } else {
                        SaharaError::UnknownMessage(ack.kind)
                    })
                },
            },
    {
        match check_end_transfer(ack) {
            Err(e) => {
                return Err(e);
            },
            Ok(()) => {},
        }
        if ack.kind != OP_MODE_ACK {
            return Err(SaharaError::UnknownMessage(ack.kind));
        }
        self.mode = target;
        self.active = true;
        Ok(())
    }

    /// The reset frame (opcode 0x07, empty payload). The session is
    /// unusable after a reset.
    pub fn reset_request() -> (r: RawPacket)
        ensures
            r.kind == OP_RESET,
            r.payload@ == Seq::<u8>::empty(),
    {
        RawPacket::new(OP_RESET, Vec::new())
    }

    /// Check the frame read back after a reset: anything but an
    /// end-of-transfer abort acknowledges it.
    pub fn reset_ack(pkt: &RawPacket) -> (r: Result<(), SaharaError>)
        ensures
            r == spec_end_transfer_check(pkt.kind, pkt.payload@),
    {
        check_end_transfer(pkt)
    }

    /// The execute-command frame (opcode 0x0D) carrying the command id.
    /// Command execution is legal only in command mode.
    pub fn exec_request(&self, command: u32) -> (r: RawPacket)
        requires
            self.mode == Mode::Command,
        ensures
            r.kind == OP_EXECUTE,
            r.payload@ == spec_le32(command),
    {
        let mut p: Vec<u8> = Vec::new();
        push_le32(&mut p, command);
        RawPacket::new(OP_EXECUTE, p)
    }

    /// The execute-data-request frame (opcode 0x0F) carrying the command
    /// id, sent after the execute-response to fetch the raw result bytes.
    pub fn exec_data_request(&self, command: u32) -> (r: RawPacket)
        requires
            self.mode == Mode::Command,
        ensures
            r.kind == OP_EXECUTE_DATA,
            r.payload@ == spec_le32(command),
    {
        let mut p: Vec<u8> = Vec::new();
        push_le32(&mut p, command);
        RawPacket::new(OP_EXECUTE_DATA, p)
    }
}

/// What the execute-response frame announces: the result length (its second
/// payload word), or the exact error.
pub open spec fn spec_exec_response_length(kind: u32, payload: Seq<u8>) -> Result<
    u32,
    SaharaError,
> {
    if kind == OP_END_TRANSFER {
        Err(spec_end_transfer_abort(payload))
    } else if kind != OP_EXECUTE_RESPONSE {
        Err(SaharaError::UnknownMessage(kind))
    } else if payload.len() < 8 {
        Err(SaharaError::Broken)
    } else {
        Ok(spec_u32_of(payload.subrange(4, 8)))
    }
}

/// Extract the announced result length from the execute-response frame
/// (opcode 0x0E, expected as a 16-byte read).
pub fn exec_response_length(pkt: &RawPacket) -> (r: Result<u32, SaharaError>)
    ensures
        r == spec_exec_response_length(pkt.kind, pkt.payload@),
{
    match check_end_transfer(pkt) {
        Err(e) => {
            return Err(e);
        },
        Ok(()) => {},
    }
    if pkt.kind != OP_EXECUTE_RESPONSE {
        return Err(SaharaError::UnknownMessage(pkt.kind));
    }
    if pkt.payload.len() < 8 {
        return Err(SaharaError::Broken);
    }
    Ok(read_u32(&pkt.payload, 4))
}

/// Accept the raw result bytes of a command execution. `buf` was allocated
/// with the announced result length; `got` is how many bytes the read
/// returned. Fewer bytes than announced fail with an invalid payload
/// length.
pub fn exec_data(buf: Vec<u8>, got: usize) -> (r: Result<Vec<u8>, SaharaError>)
    requires
        got <= buf@.len(),
    ensures
        match r {
            Ok(v) => got == buf@.len() && v@ == buf@,
            Err(e) => got < buf@.len() && e == (SaharaError::InvalidPayloadLength {
                expected: buf@.len() as u64,
                got: got as u64,
            }),
        },
{
    if got < buf.len() {
        let expected = buf.len() as u64;
        Err(SaharaError::InvalidPayloadLength { expected, got: got as u64 })
    } else {
        Ok(buf)
    }
}

/// An active session never becomes inactive again: no mode change clears
/// the flag.
pub proof fn lemma_active_is_monotone(s: Sahara, target: Mode)
    ensures
        s.active ==> spec_mode_change(s, target).active,
{
}

/// The kinds of frame each call of a sequence of mode changes sends,
/// assuming every exchange succeeds.
pub open spec fn spec_mode_change_trace(s: Sahara, targets: Seq<Mode>) -> Seq<SendKind>
    decreases targets.len(),
{
    if targets.len() == 0 {
        Seq::empty()
    } else {
        seq![spec_send_kind(s, targets[0])] + spec_mode_change_trace(
            spec_mode_change(s, targets[0]),
            targets.drop_first(),
        )
    }
}

/// Mode changes of an active session never send a hello-response: each call
/// sends nothing when its target repeats the mode the session is already
/// in, and a switch-mode frame otherwise.
proof fn lemma_active_trace(s: Sahara, targets: Seq<Mode>)
    requires
        s.active,
    ensures
        spec_mode_change_trace(s, targets).len() == targets.len(),
        forall|i: int|
            0 <= i < targets.len() ==> spec_mode_change_trace(s, targets)[i] == (if targets[i]
                == (if i == 0 {
                s.mode
            } else {
                targets[i - 1]
            }) {
                SendKind::Nothing
            } else {
                SendKind::SwitchMode
            }),
    decreases targets.len(),
{
    if targets.len() > 0 {
        let s1 = spec_mode_change(s, targets[0]);
        let rest = targets.drop_first();
        lemma_active_trace(s1, rest);
        let t = spec_mode_change_trace(s, targets);
        let t1 = spec_mode_change_trace(s1, rest);
        assert forall|i: int| 1 <= i < targets.len() implies t[i] == (if targets[i] == targets[i
            - 1] {
            SendKind::Nothing
        } else {
            SendKind::SwitchMode
        }) by {
            assert(t[i] == t1[i - 1]);
            assert(rest[i - 1] == targets[i]);
            if i - 1 > 0 {
                assert(rest[i - 2] == targets[i - 1]);
            }
        }
    }
}

/// The mode-change discipline: starting from an inactive session whose
/// first target differs from the hello mode, exactly the first call of a
/// sequence of successful mode changes sends a hello-response; every later
/// call sends nothing when its target repeats the previous one and a
/// switch-mode frame otherwise.
pub proof fn lemma_mode_change_discipline(s: Sahara, targets: Seq<Mode>)
    requires
        !s.active,
        targets.len() > 0,
        targets[0] != s.mode,
    ensures
        spec_mode_change_trace(s, targets).len() == targets.len(),
        spec_mode_change_trace(s, targets)[0] == SendKind::HelloResponse,
        forall|i: int|
            1 <= i < targets.len() ==> spec_mode_change_trace(s, targets)[i] == (if targets[i]
                == targets[i - 1] {
                SendKind::Nothing
            } else {
                SendKind::SwitchMode
            }),
{
    let s1 = spec_mode_change(s, targets[0]);
    let rest = targets.drop_first();
    lemma_active_trace(s1, rest);
    let t = spec_mode_change_trace(s, targets);
    let t1 = spec_mode_change_trace(s1, rest);
    assert forall|i: int| 1 <= i < targets.len() implies t[i] == (if targets[i] == targets[i - 1] {
        SendKind::Nothing
    } else {
        SendKind::SwitchMode
    }) by {
        assert(t[i] == t1[i - 1]);
        assert(rest[i - 1] == targets[i]);
        if i - 1 > 0 {
            assert(rest[i - 2] == targets[i - 1]);
        } else {
            assert(s1.mode == targets[0]);
        }
    }
}

} // verus!

