//! The image upload loop, driven by the device's chunk requests.
//!
//! In transmit-pending mode the device repeatedly asks for byte ranges of
//! the image with read-data frames (opcode 0x03, or 0x12 with 64-bit
//! fields); the host answers each with the requested slice, padded past the
//! end of the image with 0xFF; the exchange terminates on an
//! end-of-transfer frame with success status, possibly after a done
//! handshake requested by the device.

use vstd::prelude::*;
use crate::error::SaharaError;
use crate::error::EndTransferError;
use crate::error::spec_end_transfer_error;
use crate::protocol::OP_DONE;
use crate::protocol::OP_DONE_RESPONSE;
use crate::protocol::OP_END_TRANSFER;
use crate::protocol::OP_READ_DATA;
use crate::protocol::OP_READ_DATA_64;
use crate::protocol::RawPacket;
use crate::protocol::copy_range;
use crate::protocol::read_u32;
use crate::protocol::read_u64;
use crate::protocol::spec_u32_of;
use crate::protocol::spec_u64_of;

verus! {

/// A chunk request: the device asks for `length` bytes of image `image_id`
/// starting at `offset`.
#[derive(Debug, Clone, Copy, PartialEq, Eq, Structural)]
pub struct ChunkRequest {
    pub image_id: u64,
    pub offset: u64,
    pub length: u64,
}

/// The chunk request carried by a read-data frame: three little-endian
/// 32-bit words for opcode 0x03, three 64-bit words for opcode 0x12. A
/// payload too short for its opcode breaks the frame.
pub open spec fn spec_chunk_request(kind: u32, payload: Seq<u8>) -> Result<
    ChunkRequest,
    SaharaError,
>
    recommends
        kind == OP_READ_DATA || kind == OP_READ_DATA_64,
{
    if kind == OP_READ_DATA {
        if payload.len() >= 12 {
            Ok(
                ChunkRequest {
                    image_id: spec_u32_of(payload.subrange(0, 4)) as u64,
                    offset: spec_u32_of(payload.subrange(4, 8)) as u64,
                    length: spec_u32_of(payload.subrange(8, 12)) as u64,
                },
            )
        } else {
            Err(SaharaError::Broken)
        }
    } else {
        if payload.len() >= 24 {
            Ok(
                ChunkRequest {
                    image_id: spec_u64_of(payload.subrange(0, 8)),
                    offset: spec_u64_of(payload.subrange(8, 16)),
                    length: spec_u64_of(payload.subrange(16, 24)),
                },
            )
        } else {
            Err(SaharaError::Broken)
        }
    }
}

impl ChunkRequest {
    /// Parse a read-data frame into the requested range.
    pub fn parse(pkt: &RawPacket) -> (r: Result<ChunkRequest, SaharaError>)
        requires
            pkt.kind == OP_READ_DATA || pkt.kind == OP_READ_DATA_64,
        ensures
            r == spec_chunk_request(pkt.kind, pkt.payload@),
    {
        if pkt.kind == OP_READ_DATA {
            if pkt.payload.len() >= 12 {
                Ok(
                    ChunkRequest {
                        image_id: read_u32(&pkt.payload, 0) as u64,
                        offset: read_u32(&pkt.payload, 4) as u64,
                        length: read_u32(&pkt.payload, 8) as u64,
                    },
                )
            } else {
                Err(SaharaError::Broken)
            }
        } else {
            if pkt.payload.len() >= 24 {
                Ok(
                    ChunkRequest {
                        image_id: read_u64(&pkt.payload, 0),
                        offset: read_u64(&pkt.payload, 8),
                        length: read_u64(&pkt.payload, 16),
                    },
                )
            } else {
                Err(SaharaError::Broken)
            }
        }
    }
}

/// `orig` right-padded with 0xFF bytes to at least `n` bytes.
pub open spec fn spec_padded(orig: Seq<u8>, n: int) -> Seq<u8> {
    if n <= orig.len() {
        orig
    } else {
        orig + Seq::new((n - orig.len()) as nat, |j: int| 0xFFu8)
    }
}

/// One step of the upload loop.
#[derive(Debug)]
pub enum UploadStep {
    /// Raw bytes to write to the port; then read the device's next frame
    /// and hand it back to [`Upload::handle`].
    Write(Vec<u8>),
    /// The done frame to send after the device asked for the done
    /// handshake; then read the done-response and hand it to
    /// [`done_response`].
    DoneHandshake(RawPacket),
    /// End-of-transfer with success status: the upload is complete.
    Finished,
}

/// Drives the image upload: answers each chunk request with the requested
/// slice of the caller-supplied image, padding past its end with 0xFF.
pub struct Upload {
    program: Vec<u8>,
    image: Ghost<Seq<u8>>,
}

impl Upload {
    /// The image as the caller supplied it; the upload never changes it.
    pub closed spec fn image(&self) -> Seq<u8> {
        self.image@
    }

    /// The working buffer is the supplied image, possibly extended with
    /// 0xFF padding.
    pub closed spec fn wf(&self) -> bool {
        self.program@ == spec_padded(self.image@, self.program@.len() as int)
    }

    /// Begin an upload of the given image.
    pub fn new(program: Vec<u8>) -> (r: Upload)
        ensures
            r.wf(),
            r.image() == program@,
    {
        let image = Ghost(program@);
        Upload { program, image }
    }

    /// Handle one device frame of the upload loop. A read-data frame is
    /// answered with exactly the requested slice of the padded image; an
    /// end-of-transfer frame with status 0 finishes the upload and any
    /// other status aborts it; a done frame asks for the done handshake;
    /// any other opcode is an unknown message.
    pub fn handle(&mut self, pkt: &RawPacket) -> (r: Result<UploadStep, SaharaError>)
        requires
            old(self).wf(),
        ensures
            final(self).wf(),
            final(self).image() == old(self).image(),
            r is Err ==> *final(self) == *old(self),
            (pkt.kind == OP_READ_DATA || pkt.kind == OP_READ_DATA_64) ==> (match spec_chunk_request(
                pkt.kind,
                pkt.payload@,
            ) {
                Ok(c) => {
                    if c.offset + c.length <= usize::MAX {
                        match r {
                            Ok(UploadStep::Write(bytes)) => bytes@ == spec_padded(
                                old(self).image(),
                                c.offset + c.length,
                            ).subrange(c.offset as int, c.offset + c.length),
                            _ => false,
                        }
                    } else {
                        r == Err::<UploadStep, SaharaError>(SaharaError::Broken)
                    }
                },
                Err(e) => r == Err::<UploadStep, SaharaError>(e),
            }),
            pkt.kind == OP_END_TRANSFER ==> (if pkt.payload@.len() < 8 {
                r == Err::<UploadStep, SaharaError>(SaharaError::Broken)
            } else if spec_u32_of(pkt.payload@.subrange(4, 8)) == 0 {
                r matches Ok(UploadStep::Finished)
            } else {
                r == Err::<UploadStep, SaharaError>(
                    SaharaError::EndTransfer(
                        spec_end_transfer_error(spec_u32_of(pkt.payload@.subrange(4, 8))),
                    ),
                )
            }),
            pkt.kind == OP_DONE ==> (match r {
                Ok(UploadStep::DoneHandshake(d)) => d.kind == OP_DONE && d.payload@.len() == 0,
                _ => false,
            }),
            !(pkt.kind == OP_READ_DATA || pkt.kind == OP_READ_DATA_64 || pkt.kind
                == OP_END_TRANSFER || pkt.kind == OP_DONE) ==> r == Err::<
                UploadStep,
                SaharaError,
            >(SaharaError::UnknownMessage(pkt.kind)),
    {
        if pkt.kind == OP_READ_DATA || pkt.kind == OP_READ_DATA_64 {
            let c = match ChunkRequest::parse(pkt) {
                Ok(c) => c,
                Err(e) => {
                    return Err(e);
                },
            };
            if c.length > u64::MAX - c.offset {
                return Err(SaharaError::Broken);
            }
            let end64 = c.offset + c.length;
            if end64 > (usize::MAX as u64) {
                return Err(SaharaError::Broken);
            }
            let end = end64 as usize;
            let offset = c.offset as usize;
            while self.program.len() < end
                invariant
                    self.image@ == old(self).image@,
                    self.program@ == spec_padded(self.image@, self.program@.len() as int),
                decreases end - self.program@.len(),
            {
                self.program.push(0xFF);
                proof {
                    assert(self.program@ =~= spec_padded(
                        self.image@,
                        self.program@.len() as int,
                    ));
                }
            }
            let bytes = copy_range(&self.program, offset, end);
            proof {
                assert(bytes@ =~= spec_padded(old(self).image(), end as int).subrange(
                    offset as int,
                    end as int,
                ));
            }
            Ok(UploadStep::Write(bytes))
        } else if pkt.kind == OP_END_TRANSFER {
            if pkt.payload.len() < 8 {
                return Err(SaharaError::Broken);
            }
            let status = read_u32(&pkt.payload, 4);
            if status == 0 {
                Ok(UploadStep::Finished)
            } else {
                Err(SaharaError::EndTransfer(EndTransferError::from_code(status)))
            }
        } else if pkt.kind == OP_DONE {
            Ok(UploadStep::DoneHandshake(RawPacket::new(OP_DONE, Vec::new())))
        } else {
            Err(SaharaError::UnknownMessage(pkt.kind))
        }
    }
}

/// What the done-response read back during the done handshake yields: it
/// must be opcode 0x06 with a status word of zero; a nonzero status carries
/// the device's reason.
pub open spec fn spec_done_response(kind: u32, payload: Seq<u8>) -> Result<(), SaharaError> {
    if kind == OP_END_TRANSFER {
        Err(crate::session::spec_end_transfer_abort(payload))
    } else if kind != OP_DONE_RESPONSE {
        Err(SaharaError::UnknownMessage(kind))
    } else if payload.len() < 4 {
        Err(SaharaError::Broken)
    } else if spec_u32_of(payload.subrange(0, 4)) == 0 {
        Ok(())
    } else {
        Err(SaharaError::EndTransfer(spec_end_transfer_error(spec_u32_of(payload.subrange(0, 4)))))
    }
}

/// Check the done-response frame of the done handshake.
pub fn done_response(pkt: &RawPacket) -> (r: Result<(), SaharaError>)
    ensures
        r == spec_done_response(pkt.kind, pkt.payload@),
{
    match crate::session::check_end_transfer(pkt) {
        Err(e) => {
            return Err(e);
        },
        Ok(()) => {},
    }
    if pkt.kind != OP_DONE_RESPONSE {
        return Err(SaharaError::UnknownMessage(pkt.kind));
    }
    if pkt.payload.len() < 4 {
        return Err(SaharaError::Broken);
    }
    let status = read_u32(&pkt.payload, 0);
    if status == 0 {
        Ok(())
    } else {
        Err(SaharaError::EndTransfer(EndTransferError::from_code(status)))
    }
}

} // verus!
