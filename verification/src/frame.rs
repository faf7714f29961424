//! The GCP frame codec: message-type tags, bit-exact encoding of one frame
//! (`PREAMBLE ‖ LENGTH ‖ MSG_TYPE ‖ PARAMS+DATA ‖ CRC16`, all integers
//! little-endian), and decoding of one candidate frame with typed failures.

use vstd::prelude::*;
use crate::crc::{crc16_spec, gcp_crc16};

verus! {

/// First byte of the two-byte frame sync word.
pub const GCP_PREAMBLE_0: u8 = 0xAA;

/// Second byte of the two-byte frame sync word.
pub const GCP_PREAMBLE_1: u8 = 0x55;

/// The GCP message types. A wire value that matches no known command
/// decodes to `Unknown`, carrying the raw value, so that decoding never
/// silently relabels a frame.
#[derive(Clone, Copy, Debug, PartialEq, Eq, Structural)]
pub enum GcpCommand {
    Hello,
    Ack,
    Nack,
    Reset,
    Ping,
    FwUpdateStart,
    FwUpdateData,
    FwUpdateEnd,
    FwUpdateAbort,
    FwUpdateRequest,
    FwNoUpdateAvailable,
    GetStatus,
    SetConfig,
    GetInfo,
    GetDiagnostics,
    GetFwVersion,
    Unknown(u16),
}

/// The wire value (u16, sent little-endian) of a command tag.
pub open spec fn cmd_code_spec(c: GcpCommand) -> u16 {
    match c {
        GcpCommand::Hello => 0x0001,
        GcpCommand::Ack => 0x0002,
        GcpCommand::Nack => 0x0003,
        GcpCommand::Reset => 0x0004,
        GcpCommand::Ping => 0x0005,
        GcpCommand::FwUpdateStart => 0x1001,
        GcpCommand::FwUpdateData => 0x1002,
        GcpCommand::FwUpdateEnd => 0x1003,
        GcpCommand::FwUpdateAbort => 0x1004,
        GcpCommand::FwUpdateRequest => 0x1005,
        GcpCommand::FwNoUpdateAvailable => 0x1006,
        GcpCommand::GetStatus => 0x2001,
        GcpCommand::SetConfig => 0x2002,
        GcpCommand::GetInfo => 0x2003,
        GcpCommand::GetDiagnostics => 0x2004,
        GcpCommand::GetFwVersion => 0x2005,
        GcpCommand::Unknown(v) => v,
    }
}

/// The command tag a wire value decodes to.
pub open spec fn cmd_from_code_spec(v: u16) -> GcpCommand {
    if v == 0x0001 {
        GcpCommand::Hello
    } else if v == 0x0002 {
        GcpCommand::Ack
    } else if v == 0x0003 {
        GcpCommand::Nack
    } else if v == 0x0004 {
        GcpCommand::Reset
    } else if v == 0x0005 {
        GcpCommand::Ping
    } else if v == 0x1001 {
        GcpCommand::FwUpdateStart
    } else if v == 0x1002 {
        GcpCommand::FwUpdateData
    } else if v == 0x1003 {
        GcpCommand::FwUpdateEnd
    } else if v == 0x1004 {
        GcpCommand::FwUpdateAbort
    } else if v == 0x1005 {
        GcpCommand::FwUpdateRequest
    } else if v == 0x1006 {
        GcpCommand::FwNoUpdateAvailable
    } else if v == 0x2001 {
        GcpCommand::GetStatus
    } else if v == 0x2002 {
        GcpCommand::SetConfig
    } else if v == 0x2003 {
        GcpCommand::GetInfo
    } else if v == 0x2004 {
        GcpCommand::GetDiagnostics
    } else if v == 0x2005 {
        GcpCommand::GetFwVersion
    } else {
        GcpCommand::Unknown(v)
    }
}

impl GcpCommand {
    /// A tag is canonical when encoding it to its wire value and decoding
    /// back yields the tag itself; only an `Unknown` carrying the code of
    /// a known command is not.
    pub open spec fn is_canonical(self) -> bool {
        cmd_from_code_spec(cmd_code_spec(self)) == self
    }

    /// The wire value of this command tag.
    pub fn to_u16(&self) -> (r: u16)
        ensures
            r == cmd_code_spec(*self),
    {
        match self {
            GcpCommand::Hello => 0x0001,
            GcpCommand::Ack => 0x0002,
            GcpCommand::Nack => 0x0003,
            GcpCommand::Reset => 0x0004,
            GcpCommand::Ping => 0x0005,
            GcpCommand::FwUpdateStart => 0x1001,
            GcpCommand::FwUpdateData => 0x1002,
            GcpCommand::FwUpdateEnd => 0x1003,
            GcpCommand::FwUpdateAbort => 0x1004,
            GcpCommand::FwUpdateRequest => 0x1005,
            GcpCommand::FwNoUpdateAvailable => 0x1006,
            GcpCommand::GetStatus => 0x2001,
            GcpCommand::SetConfig => 0x2002,
            GcpCommand::GetInfo => 0x2003,
            GcpCommand::GetDiagnostics => 0x2004,
            GcpCommand::GetFwVersion => 0x2005,
            GcpCommand::Unknown(v) => *v,
        }
    }

    /// The command tag of a wire value; unknown values yield `Unknown`.
    pub fn from_u16(v: u16) -> (r: GcpCommand)
        ensures
            r == cmd_from_code_spec(v),
    {
        if v == 0x0001 {
            GcpCommand::Hello
        } else if v == 0x0002 {
            GcpCommand::Ack
        } else if v == 0x0003 {
            GcpCommand::Nack
        } else if v == 0x0004 {
            GcpCommand::Reset
        } else if v == 0x0005 {
            GcpCommand::Ping
        } else if v == 0x1001 {
            GcpCommand::FwUpdateStart
        } else if v == 0x1002 {
            GcpCommand::FwUpdateData
        } else if v == 0x1003 {
            GcpCommand::FwUpdateEnd
        } else if v == 0x1004 {
            GcpCommand::FwUpdateAbort
        } else if v == 0x1005 {
            GcpCommand::FwUpdateRequest
        } else if v == 0x1006 {
            GcpCommand::FwNoUpdateAvailable
        } else if v == 0x2001 {
            GcpCommand::GetStatus
        } else if v == 0x2002 {
            GcpCommand::SetConfig
        } else if v == 0x2003 {
            GcpCommand::GetInfo
        } else if v == 0x2004 {
            GcpCommand::GetDiagnostics
        } else if v == 0x2005 {
            GcpCommand::GetFwVersion
        } else {
            GcpCommand::Unknown(v)
        }
    }
}

/// Why decoding one candidate frame failed.
#[derive(Clone, Copy, Debug, PartialEq, Eq, Structural)]
pub enum FrameDecodeError {
    /// Fewer bytes than the smallest possible frame, or a LENGTH field
    /// below 4 (a frame must contain at least LENGTH and MSG_TYPE).
    ShortFrame,
    /// The first two bytes are not the sync word.
    BadPreamble,
    /// The slice is shorter than `LENGTH + 4`.
    Incomplete,
    /// The CRC-16 computed over `LENGTH ‖ MSG_TYPE ‖ PARAMS+DATA` differs
    /// from the one stored at the end of the slice.
    CrcMismatch { expected: u16, got: u16 },
}

/// The u16 read little-endian from two bytes.
pub open spec fn le16(lo: u8, hi: u8) -> u16 {
    (lo + hi * 256) as u16
}

/// The two little-endian bytes of a u16.
pub open spec fn spec_le16(v: u16) -> Seq<u8> {
    seq![(v % 256) as u8, (v / 256) as u8]
}

/// One GCP frame. `length` counts the bytes from the first byte of the
/// LENGTH field through the last byte of PARAMS+DATA; the preamble and
/// the trailing CRC are excluded, so the wire size is `length + 4`.
#[derive(Clone, Debug, PartialEq)]
pub struct GcpFrame {
    pub length: u16,
    pub msg_type: GcpCommand,
    pub parameters: Vec<u8>,
    pub data: Vec<u8>,
}

impl GcpFrame {
    /// The LENGTH field agrees with the payload actually carried.
    pub open spec fn wf(self) -> bool {
        self.length == 4 + self.parameters@.len() + self.data@.len()
    }

    /// The CRC-covered region: `LENGTH ‖ MSG_TYPE ‖ PARAMS+DATA`.
    pub open spec fn body_bytes(self) -> Seq<u8> {
        spec_le16(self.length) + spec_le16(cmd_code_spec(self.msg_type)) + self.parameters@
            + self.data@
    }

    /// The full wire encoding of the frame.
    pub open spec fn wire_bytes(self) -> Seq<u8> {
        seq![GCP_PREAMBLE_0, GCP_PREAMBLE_1] + self.body_bytes() + spec_le16(
            crc16_spec(self.body_bytes()),
        )
    }

    /// A header-only frame: no caller payload, two reserved zero bytes,
    /// `LENGTH = 6`.
    pub fn new(msg_type: GcpCommand) -> (r: GcpFrame)
        ensures
            r.length == 6,
            r.msg_type == msg_type,
            r.parameters@ =~= seq![0u8, 0u8],
            r.data@ =~= Seq::<u8>::empty(),
            r.wf(),
    {
        let parameters: Vec<u8> = vec![0u8, 0u8];
        GcpFrame { length: 6, msg_type, parameters, data: Vec::new() }
    }

    /// A frame with caller-supplied parameters and no data:
    /// `LENGTH = 4 + |parameters|`.
    pub fn with_parameters(msg_type: GcpCommand, parameters: Vec<u8>) -> (r: GcpFrame)
        requires
            4 + parameters@.len() <= u16::MAX,
        ensures
            r.length == 4 + parameters@.len(),
            r.msg_type == msg_type,
            r.parameters == parameters,
            r.data@ =~= Seq::<u8>::empty(),
            r.wf(),
    {
        let length: u16 = 4 + parameters.len() as u16;
        GcpFrame { length, msg_type, parameters, data: Vec::new() }
    }

    /// A frame with parameters and data: `LENGTH = 4 + |parameters| + |data|`.
    pub fn with_data(msg_type: GcpCommand, parameters: Vec<u8>, data: Vec<u8>) -> (r: GcpFrame)
        requires
            4 + parameters@.len() + data@.len() <= u16::MAX,
        ensures
            r.length == 4 + parameters@.len() + data@.len(),
            r.msg_type == msg_type,
            r.parameters == parameters,
            r.data == data,
            r.wf(),
    {
        let length: u16 = 4 + parameters.len() as u16 + data.len() as u16;
        GcpFrame { length, msg_type, parameters, data }
    }

    /// Encode the frame for the wire: preamble, LENGTH and MSG_TYPE
    /// little-endian, parameters, data, then the CRC-16 of everything
    /// between preamble and CRC, little-endian.
    pub fn serialize(&self) -> (out: Vec<u8>)
        ensures
            out@ == self.wire_bytes(),
    {
        let mut body: Vec<u8> = Vec::new();
        push_le16(&mut body, self.length);
        push_le16(&mut body, self.msg_type.to_u16());
        extend_bytes(&mut body, self.parameters.as_slice());
        extend_bytes(&mut body, self.data.as_slice());
        assert(body@ =~= self.body_bytes());
        let crc = gcp_crc16(body.as_slice());
        let mut out: Vec<u8> = Vec::new();
        out.push(GCP_PREAMBLE_0);
        out.push(GCP_PREAMBLE_1);
        extend_bytes(&mut out, body.as_slice());
        push_le16(&mut out, crc);
        assert(out@ =~= self.wire_bytes());
        out
    }

    /// Decode one candidate frame from a byte slice, per the checks of
    /// `decode_err`: size, preamble, LENGTH, CRC. On success the
    /// PARAMS+DATA region is split as `decoded_params`/`decoded_data`
    /// describe: for ACK frames the whole payload is data; otherwise a
    /// payload of at least two bytes yields two parameter bytes and the
    /// rest as data, and a shorter payload is all data.
    pub fn deserialize(data: &[u8]) -> (out: Result<GcpFrame, FrameDecodeError>)
        ensures
            match out {
                Ok(f) => {
                    &&& decode_err(data@) is None
                    &&& f.length == decoded_length(data@)
                    &&& f.msg_type == decoded_msg(data@)
                    &&& f.parameters@ == decoded_params(data@)
                    &&& f.data@ == decoded_data(data@)
                    &&& f.wf()
                },
                Err(e) => decode_err(data@) == Some(e),
            },
    {
        if data.len() < 10 {
            return Err(FrameDecodeError::ShortFrame);
        }
        if data[0] != GCP_PREAMBLE_0 || data[1] != GCP_PREAMBLE_1 {
            return Err(FrameDecodeError::BadPreamble);
        }
        let length: u16 = read_le16(data, 2);
        if length < 4 {
            return Err(FrameDecodeError::ShortFrame);
        }
        if data.len() < length as usize + 4 {
            return Err(FrameDecodeError::Incomplete);
        }
        let body = vstd::slice::slice_subrange(data, 2, 2 + length as usize);
        let expected = gcp_crc16(body);
        let got: u16 = read_le16(data, data.len() - 2);
        if expected != got {
            return Err(FrameDecodeError::CrcMismatch { expected, got });
        }
        let msg_type = GcpCommand::from_u16(read_le16(data, 4));
        let payload_len: usize = length as usize - 4;
        let payload = vstd::slice::slice_subrange(data, 6, 6 + payload_len);
        let mut parameters: Vec<u8> = Vec::new();
        let mut data_payload: Vec<u8> = Vec::new();
        if matches!(msg_type, GcpCommand::Ack) {
            data_payload = vstd::slice::slice_to_vec(payload);
        } else if payload_len >= 2 {
            parameters = vstd::slice::slice_to_vec(vstd::slice::slice_subrange(payload, 0, 2));
            data_payload = vstd::slice::slice_to_vec(
                vstd::slice::slice_subrange(payload, 2, payload_len),
            );
            assert(parameters@ =~= decoded_params(data@));
            assert(data_payload@ =~= decoded_data(data@));
        } else {
            data_payload = vstd::slice::slice_to_vec(payload);
        }
        Ok(GcpFrame { length, msg_type, parameters, data: data_payload })
    }
}

/// The LENGTH field of a candidate frame (meaningful once the slice has
/// at least four bytes).
pub open spec fn decoded_length(s: Seq<u8>) -> u16 {
    le16(s[2], s[3])
}

/// The message tag of a candidate frame.
pub open spec fn decoded_msg(s: Seq<u8>) -> GcpCommand {
    cmd_from_code_spec(le16(s[4], s[5]))
}

/// The PARAMS+DATA region of a candidate frame.
pub open spec fn decoded_payload(s: Seq<u8>) -> Seq<u8> {
    s.subrange(6, 2 + decoded_length(s) as int)
}

/// Why decoding a candidate frame fails, or `None` when it succeeds.
/// The checks run in order: overall size, preamble, LENGTH lower bound,
/// completeness, CRC. The CRC is computed over `s[2 .. 2+LENGTH]` and
/// compared to the last two bytes of the slice.
pub open spec fn decode_err(s: Seq<u8>) -> Option<FrameDecodeError> {
    if s.len() < 10 {
        Some(FrameDecodeError::ShortFrame)
    } else if s[0] != GCP_PREAMBLE_0 || s[1] != GCP_PREAMBLE_1 {
        Some(FrameDecodeError::BadPreamble)
    } else {
        let len = decoded_length(s) as int;
        if len < 4 {
            Some(FrameDecodeError::ShortFrame)
        } else if s.len() < len + 4 {
            Some(FrameDecodeError::Incomplete)
        } else {
            let expected = crc16_spec(s.subrange(2, 2 + len));
            let got = le16(s[s.len() - 2], s[s.len() - 1]);
            if expected != got {
                Some(FrameDecodeError::CrcMismatch { expected, got })
            } else {
                None
            }
        }
    }
}

/// The parameter bytes a successful decode yields.
pub open spec fn decoded_params(s: Seq<u8>) -> Seq<u8> {
    let p = decoded_payload(s);
    if decoded_msg(s) == GcpCommand::Ack {
        Seq::<u8>::empty()
    } else if p.len() >= 2 {
        p.subrange(0, 2)
    } else {
        Seq::<u8>::empty()
    }
}

/// The data bytes a successful decode yields.
pub open spec fn decoded_data(s: Seq<u8>) -> Seq<u8> {
    let p = decoded_payload(s);
    if decoded_msg(s) == GcpCommand::Ack {
        p
    } else if p.len() >= 2 {
        p.subrange(2, p.len() as int)
    } else {
        p
    }
}

/// Encoding a u16 as two little-endian bytes and reading them back yields
/// the value.
pub proof fn lemma_le16_round_trip(v: u16)
    ensures
        le16(spec_le16(v)[0], spec_le16(v)[1]) == v,
{
    assert(v % 256 + (v / 256) * 256 == v) by (nonlinear_arith);
}

/// The shapes of frame a decode can give back unchanged: the LENGTH field
/// consistent, a canonical message tag, at least two payload bytes, and a
/// payload split that matches the decoder's rule (ACK frames carry all
/// payload as data; other frames carry exactly two parameter bytes).
pub open spec fn round_trippable(f: GcpFrame) -> bool {
    &&& f.wf()
    &&& f.msg_type.is_canonical()
    &&& f.parameters@.len() + f.data@.len() >= 2
    &&& if f.msg_type == GcpCommand::Ack {
        f.parameters@.len() == 0
    } else {
        f.parameters@.len() == 2
    }
}

/// Every encoded frame round-trips: decoding the emitted bytes succeeds
/// (in particular the stored CRC verifies) and yields the original
/// message type, parameters and data.
pub proof fn lemma_frame_round_trip(f: GcpFrame)
    requires
        round_trippable(f),
    ensures
        decode_err(f.wire_bytes()) is None,
        decoded_length(f.wire_bytes()) == f.length,
        decoded_msg(f.wire_bytes()) == f.msg_type,
        decoded_params(f.wire_bytes()) == f.parameters@,
        decoded_data(f.wire_bytes()) == f.data@,
{
    let b = f.body_bytes();
    let w = f.wire_bytes();
    let crc = crc16_spec(b);
    assert(b.len() == f.length);
    assert(w.len() == f.length + 4);
    assert(w[2] == spec_le16(f.length)[0] && w[3] == spec_le16(f.length)[1]);
    lemma_le16_round_trip(f.length);
    assert(decoded_length(w) == f.length);
    let len = decoded_length(w) as int;
    assert(w.subrange(2, 2 + len) =~= b);
    assert(w[w.len() - 2] == spec_le16(crc)[0] && w[w.len() - 1] == spec_le16(crc)[1]);
    lemma_le16_round_trip(crc);
    assert(le16(w[w.len() - 2], w[w.len() - 1]) == crc);
    assert(decode_err(w) is None);
    assert(w[4] == spec_le16(cmd_code_spec(f.msg_type))[0] && w[5] == spec_le16(
        cmd_code_spec(f.msg_type),
    )[1]);
    lemma_le16_round_trip(cmd_code_spec(f.msg_type));
    assert(decoded_msg(w) == f.msg_type);
    let p = decoded_payload(w);
    assert(p =~= f.parameters@ + f.data@);
    if f.msg_type == GcpCommand::Ack {
        assert(decoded_params(w) =~= f.parameters@);
        assert(decoded_data(w) =~= f.data@);
    } else {
        assert(p.len() >= 2);
        assert(decoded_params(w) =~= f.parameters@);
        assert(decoded_data(w) =~= f.data@);
    }
}

/// A corrupted copy of a valid frame is rejected. If a frame's bytes are
/// altered anywhere between the header and the trailing CRC so that the
/// computed CRC-16 changes, decoding the altered slice fails with
/// `CrcMismatch` (an alteration that leaves the CRC-16 unchanged — a
/// collision — is not detectable by the CRC, and an altered LENGTH field
/// changes which bytes the CRC covers).
pub proof fn lemma_corruption_detected(s: Seq<u8>, t: Seq<u8>)
    requires
        decode_err(s) is None,
        t.len() == s.len(),
        t[0] == s[0],
        t[1] == s[1],
        t[2] == s[2],
        t[3] == s[3],
        t[t.len() - 2] == s[s.len() - 2],
        t[t.len() - 1] == s[s.len() - 1],
        crc16_spec(t.subrange(2, 2 + decoded_length(t) as int)) != crc16_spec(
            s.subrange(2, 2 + decoded_length(s) as int),
        ),
    ensures
        decode_err(t) == Some(
            FrameDecodeError::CrcMismatch {
                expected: crc16_spec(t.subrange(2, 2 + decoded_length(t) as int)),
                got: le16(s[s.len() - 2], s[s.len() - 1]),
            },
        ),
{
    assert(decoded_length(t) == decoded_length(s));
    let len = decoded_length(s) as int;
    assert(crc16_spec(s.subrange(2, 2 + len)) == le16(s[s.len() - 2], s[s.len() - 1]));
}

/// Append the two little-endian bytes of `x`.
pub fn push_le16(v: &mut Vec<u8>, x: u16)
    ensures
        final(v)@ == old(v)@ + spec_le16(x),
{
    v.push((x % 256) as u8);
    v.push((x / 256) as u8);
    assert(v@ =~= old(v)@ + spec_le16(x));
}

/// Read a u16 little-endian from `data` at `pos`.
pub fn read_le16(data: &[u8], pos: usize) -> (r: u16)
    requires
        pos + 2 <= data@.len(),
    ensures
        r == le16(data@[pos as int], data@[pos as int + 1]),
{
    data[pos] as u16 + (data[pos + 1] as u16) * 256
}

/// Append all of `src` to `dst`.
pub fn extend_bytes(dst: &mut Vec<u8>, src: &[u8])
    ensures
        final(dst)@ == old(dst)@ + src@,
{
    let mut i: usize = 0;
    while i < src.len()
        invariant
            0 <= i <= src@.len(),
            dst@ == old(dst)@ + src@.subrange(0, i as int),
        decreases src@.len() - i,
    {
        dst.push(src[i]);
        assert(dst@ =~= old(dst)@ + src@.subrange(0, i + 1 as int));
        i = i + 1;
    }
    assert(src@.subrange(0, src@.len() as int) =~= src@);
}

} // verus!
