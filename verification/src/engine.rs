//! Request-engine decision logic: classifying a response frame, slicing
//! ACK payloads (echoed command + sequence number prefix), turning NACKs
//! into device errors, and the retry policy. Sending a frame and reading
//! the response are I/O and stay with the caller; these functions take the
//! decoded response frame and say what it means.

use vstd::prelude::*;
use crate::GCP_MAX_RETRIES;
use crate::frame::{FrameDecodeError, GcpCommand, GcpFrame, extend_bytes, le16, push_le16, spec_le16};
use crate::records::{
    GcpFwVersionData, GcpHardwareData, GcpStatusData, fw_version_matches, hardware_matches,
    parse_fw_version_data, parse_hardware_data, parse_status_data, status_matches,
};

verus! {

/// The errors a protocol operation surfaces to callers.
#[derive(Clone, Copy, Debug, PartialEq, Eq, Structural)]
pub enum EngineError {
    /// The underlying port open/read/write/flush failed.
    IoError,
    /// No frame was assembled within the read window.
    Timeout,
    /// A completed candidate frame was rejected by the codec.
    FrameCorrupt(FrameDecodeError),
    /// The device answered with a NACK carrying this GCP error code.
    DeviceError(u16),
    /// An ACK payload too short for, or not shaped like, the expected
    /// response.
    InvalidResponse,
    /// A command was issued in a state that does not allow it.
    ProtocolState,
    /// No connection-pool entry exists for the named port.
    NotConnected,
}

/// The GCP error codes a NACK can carry.
#[derive(Clone, Copy, Debug, PartialEq, Eq, Structural)]
pub enum GcpError {
    Crc,
    SeqNum,
    Size,
    Timeout,
    Mram,
    UnknownCmd,
    InvalidParam,
    Busy,
}

/// The wire value of a GCP error code.
pub open spec fn gcp_error_code_spec(e: GcpError) -> u16 {
    match e {
        GcpError::Crc => 0x0001,
        GcpError::SeqNum => 0x0002,
        GcpError::Size => 0x0003,
        GcpError::Timeout => 0x0004,
        GcpError::Mram => 0x0005,
        GcpError::UnknownCmd => 0x0006,
        GcpError::InvalidParam => 0x0007,
        GcpError::Busy => 0x0008,
    }
}

impl GcpError {
    /// The wire value of this error code.
    pub fn to_u16(&self) -> (r: u16)
        ensures
            r == gcp_error_code_spec(*self),
    {
        match self {
            GcpError::Crc => 0x0001,
            GcpError::SeqNum => 0x0002,
            GcpError::Size => 0x0003,
            GcpError::Timeout => 0x0004,
            GcpError::Mram => 0x0005,
            GcpError::UnknownCmd => 0x0006,
            GcpError::InvalidParam => 0x0007,
            GcpError::Busy => 0x0008,
        }
    }
}

/// The NACK codes the retry loop absorbs: CRC, SEQ, TIMEOUT, MRAM and
/// BUSY. SIZE, UNKNOWN_CMD and INVALID_PARAM are surfaced at once.
pub open spec fn nack_code_transient(code: u16) -> bool {
    ||| code == 0x0001
    ||| code == 0x0002
    ||| code == 0x0004
    ||| code == 0x0005
    ||| code == 0x0008
}

/// Whether a NACK with this code is worth retrying.
pub fn nack_is_transient(code: u16) -> (r: bool)
    ensures
        r == nack_code_transient(code),
{
    code == 0x0001 || code == 0x0002 || code == 0x0004 || code == 0x0005 || code == 0x0008
}

/// The failures the retry loop absorbs: I/O failures, timeouts, corrupt
/// frames, and transient device errors.
pub open spec fn engine_error_transient(e: EngineError) -> bool {
    match e {
        EngineError::IoError => true,
        EngineError::Timeout => true,
        EngineError::FrameCorrupt(_) => true,
        EngineError::DeviceError(code) => nack_code_transient(code),
        _ => false,
    }
}

/// Whether this failure is transient.
pub fn error_is_transient(e: &EngineError) -> (r: bool)
    ensures
        r == engine_error_transient(*e),
{
    match e {
        EngineError::IoError => true,
        EngineError::Timeout => true,
        EngineError::FrameCorrupt(_) => true,
        EngineError::DeviceError(code) => nack_is_transient(*code),
        _ => false,
    }
}

/// Whether an attempt that failed with `e` should be retried, after
/// `attempts_made` attempts have been made: only while fewer than
/// `GCP_MAX_RETRIES` attempts were made, and only for transient failures.
pub fn should_retry(e: &EngineError, attempts_made: u32) -> (r: bool)
    ensures
        r == (attempts_made < GCP_MAX_RETRIES && engine_error_transient(*e)),
{
    attempts_made < GCP_MAX_RETRIES && error_is_transient(e)
}

/// A response frame's PARAMS+DATA region as one contiguous sequence
/// (the codec's two-byte parameter split is not meaningful for ACKs).
pub open spec fn ack_payload(f: GcpFrame) -> Seq<u8> {
    f.parameters@ + f.data@
}

/// The device error a NACK payload (`ECHOED_CMD(2) ‖ SEQ_NO(4) ‖
/// ERROR_CODE(2)`) carries; a shorter payload is an invalid response.
pub open spec fn nack_error(all: Seq<u8>) -> EngineError {
    if all.len() >= 8 {
        EngineError::DeviceError(le16(all[6], all[7]))
    } else {
        EngineError::InvalidResponse
    }
}

/// How many bytes to skip before the command-specific response bytes of
/// an ACK payload: 6 (echoed command + sequence number) when the payload
/// is long enough for prefix plus response and its first two bytes echo
/// the request's message type little-endian; otherwise 0.
pub open spec fn ack_prefix_skip(all: Seq<u8>, req_code: u16, expected: int) -> int {
    if all.len() >= expected + 6 && all[0] == req_code as int % 256 && all[1] == req_code as int
        / 256 {
        6
    } else {
        0
    }
}

/// The PARAMS+DATA region of a frame as one vector.
pub fn concat_params_data(frame: &GcpFrame) -> (r: Vec<u8>)
    ensures
        r@ == ack_payload(*frame),
{
    let mut v: Vec<u8> = Vec::new();
    extend_bytes(&mut v, frame.parameters.as_slice());
    extend_bytes(&mut v, frame.data.as_slice());
    assert(v@ =~= ack_payload(*frame));
    v
}

/// Classify a response to a request with message type `req_code` whose
/// ACK is expected to carry `expected` response bytes. An ACK yields
/// those bytes (after peeling the echoed-command prefix when present); a
/// NACK yields the device error it reports; anything else, or an ACK too
/// short for the expected response, is an invalid response.
pub fn ack_response_bytes(frame: &GcpFrame, req_code: u16, expected: usize) -> (r: Result<
    Vec<u8>,
    EngineError,
>)
    requires
        expected <= 65535,
    ensures
        ({
            let all = ack_payload(*frame);
            match frame.msg_type {
                GcpCommand::Ack => {
                    let skip = ack_prefix_skip(all, req_code, expected as int);
                    if all.len() >= skip + expected {
                        r matches Ok(v) && v@ == all.subrange(skip, skip + expected)
                    } else {
                        r == Err::<Vec<u8>, EngineError>(EngineError::InvalidResponse)
                    }
                },
                GcpCommand::Nack => r == Err::<Vec<u8>, EngineError>(nack_error(all)),
                _ => r == Err::<Vec<u8>, EngineError>(EngineError::InvalidResponse),
            }
        }),
{
    let all = concat_params_data(frame);
    match frame.msg_type {
        GcpCommand::Ack => {
            let skip: usize = if all.len() >= expected + 6 && all[0] == (req_code % 256) as u8
                && all[1] == (req_code / 256) as u8 {
                6
            } else {
                0
            };
            if all.len() >= skip + expected {
                let v = vstd::slice::slice_to_vec(
                    vstd::slice::slice_subrange(all.as_slice(), skip, skip + expected),
                );
                Ok(v)
            } else {
                Err(EngineError::InvalidResponse)
            }
        },
        GcpCommand::Nack => {
            if all.len() >= 8 {
                let code = all[6] as u16 + (all[7] as u16) * 256;
                Err(EngineError::DeviceError(code))
            } else {
                Err(EngineError::InvalidResponse)
            }
        },
        _ => Err(EngineError::InvalidResponse),
    }
}

/// Turn the response to HELLO into the hardware record: an ACK must
/// carry 8 response bytes (echo prefix peeled when present).
pub fn handle_hello_response(frame: &GcpFrame) -> (r: Result<GcpHardwareData, EngineError>)
    ensures
        ({
            let all = ack_payload(*frame);
            match frame.msg_type {
                GcpCommand::Ack => {
                    let skip = ack_prefix_skip(all, 0x0001, 8);
                    if all.len() >= skip + 8 {
                        r matches Ok(h) && hardware_matches(h, all.subrange(skip, skip + 8))
                    } else {
                        r == Err::<GcpHardwareData, EngineError>(EngineError::InvalidResponse)
                    }
                },
                GcpCommand::Nack => r == Err::<GcpHardwareData, EngineError>(nack_error(all)),
                _ => r == Err::<GcpHardwareData, EngineError>(EngineError::InvalidResponse),
            }
        }),
{
    match ack_response_bytes(frame, 0x0001, 8) {
        Ok(bytes) => Ok(parse_hardware_data(bytes.as_slice())),
        Err(e) => Err(e),
    }
}

/// Turn the response to GET_STATUS into the status record: an ACK must
/// carry 15 response bytes (echo prefix peeled when present).
pub fn handle_status_response(frame: &GcpFrame) -> (r: Result<GcpStatusData, EngineError>)
    ensures
        ({
            let all = ack_payload(*frame);
            match frame.msg_type {
                GcpCommand::Ack => {
                    let skip = ack_prefix_skip(all, 0x2001, 15);
                    if all.len() >= skip + 15 {
                        r matches Ok(s) && status_matches(s, all.subrange(skip, skip + 15))
                    } else {
                        r == Err::<GcpStatusData, EngineError>(EngineError::InvalidResponse)
                    }
                },
                GcpCommand::Nack => r == Err::<GcpStatusData, EngineError>(nack_error(all)),
                _ => r == Err::<GcpStatusData, EngineError>(EngineError::InvalidResponse),
            }
        }),
{
    match ack_response_bytes(frame, 0x2001, 15) {
        Ok(bytes) => Ok(parse_status_data(bytes.as_slice())),
        Err(e) => Err(e),
    }
}

/// Turn the response to GET_FW_VER into the version record: an ACK must
/// carry 6 response bytes (echo prefix peeled when present).
pub fn handle_fw_version_response(frame: &GcpFrame) -> (r: Result<GcpFwVersionData, EngineError>)
    ensures
        ({
            let all = ack_payload(*frame);
            match frame.msg_type {
                GcpCommand::Ack => {
                    let skip = ack_prefix_skip(all, 0x2005, 6);
                    if all.len() >= skip + 6 {
                        r matches Ok(v) && fw_version_matches(v, all.subrange(skip, skip + 6))
                    } else {
                        r == Err::<GcpFwVersionData, EngineError>(EngineError::InvalidResponse)
                    }
                },
                GcpCommand::Nack => r == Err::<GcpFwVersionData, EngineError>(nack_error(all)),
                _ => r == Err::<GcpFwVersionData, EngineError>(EngineError::InvalidResponse),
            }
        }),
{
    match ack_response_bytes(frame, 0x2005, 6) {
        Ok(bytes) => Ok(parse_fw_version_data(bytes.as_slice())),
        Err(e) => Err(e),
    }
}

/// The reset-mode parameter: `0x0002` resets and applies staged firmware,
/// `0x0001` is a plain soft reset.
pub fn reset_mode(apply_firmware: bool) -> (r: u16)
    ensures
        r == if apply_firmware {
            0x0002u16
        } else {
            0x0001u16
        },
{
    if apply_firmware {
        0x0002
    } else {
        0x0001
    }
}

/// The RESET request frame, carrying the u16 reset mode little-endian as
/// its two parameter bytes.
pub fn build_reset_frame(apply_firmware: bool) -> (f: GcpFrame)
    ensures
        f.msg_type == GcpCommand::Reset,
        f.parameters@ == spec_le16(
            if apply_firmware {
                0x0002u16
            } else {
                0x0001u16
            },
        ),
        f.data@.len() == 0,
        f.wf(),
{
    let mode = reset_mode(apply_firmware);
    let mut params: Vec<u8> = Vec::new();
    push_le16(&mut params, mode);
    assert(params@ =~= spec_le16(mode));
    GcpFrame::with_parameters(GcpCommand::Reset, params)
}

} // verus!
