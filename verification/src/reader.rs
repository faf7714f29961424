//! The transport framer: an accumulator that is fed raw bytes read from
//! the serial line, resynchronizes on the frame preamble, grows until a
//! length-prefixed frame is complete, and hands that prefix to the codec.
//! The accumulator holds one request's bytes; reading from the port and
//! timeouts stay with the caller.

use vstd::prelude::*;
use crate::frame::{
    FrameDecodeError, GcpFrame, GCP_PREAMBLE_0, GCP_PREAMBLE_1, decode_err, decoded_data,
    decoded_length, decoded_msg, decoded_params, le16, lemma_frame_round_trip, read_le16,
    round_trippable,
};

verus! {

/// How many unsynchronized bytes the accumulator retains while searching
/// for a preamble; past this the bus is taken as desynchronized and the
/// bytes are discarded.
pub const GCP_RESYNC_LIMIT: usize = 1000;

/// The two-byte sync word starts at offset `k` of `s`.
pub open spec fn is_pre_at(s: Seq<u8>, k: int) -> bool {
    &&& 0 <= k
    &&& k + 1 < s.len()
    &&& s[k] == GCP_PREAMBLE_0
    &&& s[k + 1] == GCP_PREAMBLE_1
}

/// The offset of the first sync word in `s`, if any.
pub open spec fn find_pre(s: Seq<u8>) -> Option<int>
    decreases s.len(),
{
    if s.len() < 2 {
        None
    } else if s[0] == GCP_PREAMBLE_0 && s[1] == GCP_PREAMBLE_1 {
        Some(0)
    } else {
        match find_pre(s.skip(1)) {
            Some(k) => Some(k + 1),
            None => None,
        }
    }
}

/// A sequence with no sync word anywhere has no first one.
pub proof fn lemma_find_pre_none(s: Seq<u8>)
    requires
        forall|k: int| !is_pre_at(s, k),
    ensures
        find_pre(s) is None,
    decreases s.len(),
{
    if s.len() >= 2 {
        assert(!is_pre_at(s, 0));
        assert forall|k: int| !is_pre_at(s.skip(1), k) by {
            if is_pre_at(s.skip(1), k) {
                assert(is_pre_at(s, k + 1));
            }
        }
        lemma_find_pre_none(s.skip(1));
    }
}

/// A sync word at `i` with none before it is the first one.
pub proof fn lemma_find_pre_at(s: Seq<u8>, i: int)
    requires
        is_pre_at(s, i),
        forall|k: int| 0 <= k < i ==> !is_pre_at(s, k),
    ensures
        find_pre(s) == Some(i),
    decreases i,
{
    if i > 0 {
        assert(!is_pre_at(s, 0));
        assert(is_pre_at(s.skip(1), i - 1));
        assert forall|k: int| 0 <= k < i - 1 implies !is_pre_at(s.skip(1), k) by {
            if is_pre_at(s.skip(1), k) {
                assert(is_pre_at(s, k + 1));
            }
        }
        lemma_find_pre_at(s.skip(1), i - 1);
    }
}

/// The offset of the first `0xAA 0x55` pair in the buffer, if any.
pub fn find_preamble(buffer: &[u8]) -> (r: Option<usize>)
    ensures
        match r {
            Some(i) => find_pre(buffer@) == Some(i as int) && i + 1 < buffer@.len(),
            None => find_pre(buffer@) is None,
        },
{
    if buffer.len() < 2 {
        proof {
            lemma_find_pre_none(buffer@);
        }
        return None;
    }
    let mut i: usize = 0;
    while i <= buffer.len() - 2
        invariant
            buffer@.len() >= 2,
            0 <= i <= buffer@.len() - 1,
            forall|k: int| 0 <= k < i ==> !is_pre_at(buffer@, k),
        decreases buffer@.len() - i,
    {
        if buffer[i] == GCP_PREAMBLE_0 && buffer[i + 1] == GCP_PREAMBLE_1 {
            proof {
                lemma_find_pre_at(buffer@, i as int);
            }
            return Some(i);
        }
        i = i + 1;
    }
    proof {
        lemma_find_pre_none(buffer@);
    }
    None
}

/// What one `feed` call yields: more bytes are needed, a whole frame
/// decoded, or a completed candidate that the codec rejected.
#[derive(Debug)]
pub enum FeedResult {
    Pending,
    Frame(GcpFrame),
    Corrupt(FrameDecodeError),
}

/// The buffered bytes after the preamble scan: anchor at the first sync
/// word if one is present; otherwise keep the bytes, unless they exceed
/// the resync limit, in which case discard them all.
pub open spec fn scan_bytes(s: Seq<u8>) -> Seq<u8> {
    match find_pre(s) {
        Some(k) => s.skip(k),
        None => if s.len() > GCP_RESYNC_LIMIT { Seq::<u8>::empty() } else { s },
    }
}

/// The accumulator's bytes after appending a chunk and scanning.
pub open spec fn after_scan_bytes(s: Seq<u8>, anchored: bool) -> Seq<u8> {
    if anchored {
        s
    } else {
        scan_bytes(s)
    }
}

/// Whether the accumulator is anchored on a preamble after the scan.
pub open spec fn after_scan_anchored(s: Seq<u8>, anchored: bool) -> bool {
    anchored || find_pre(s) is Some
}

/// An anchored buffer holds a complete candidate frame: the LENGTH field
/// is readable and `LENGTH + 4` bytes are buffered.
pub open spec fn frame_ready(s: Seq<u8>, anchored: bool) -> bool {
    &&& anchored
    &&& s.len() >= 4
    &&& s.len() >= le16(s[2], s[3]) + 4
}

/// The complete candidate frame at the front of an anchored buffer.
pub open spec fn ready_prefix(s: Seq<u8>) -> Seq<u8> {
    s.subrange(0, le16(s[2], s[3]) + 4)
}

/// Accumulates bytes read from the serial line until one frame is
/// complete. Create one per expected response; leftover bytes after a
/// completed frame are discarded.
pub struct FrameAccumulator {
    buf: Vec<u8>,
    anchored: bool,
}

impl FrameAccumulator {
    /// The bytes currently buffered.
    pub closed spec fn bytes(self) -> Seq<u8> {
        self.buf@
    }

    /// Whether the front of the buffer is anchored on a preamble.
    pub closed spec fn is_anchored(self) -> bool {
        self.anchored
    }

    /// An empty, unanchored accumulator.
    pub fn new() -> (r: FrameAccumulator)
        ensures
            r.bytes().len() == 0,
            !r.is_anchored(),
    {
        FrameAccumulator { buf: Vec::new(), anchored: false }
    }

    /// Feed the bytes of one read into the accumulator. The chunk is
    /// appended; if no preamble was anchored yet the buffer is scanned
    /// (dropping bytes before the first sync word, or all bytes past the
    /// resync limit); once a full `LENGTH + 4`-byte candidate is buffered
    /// it is decoded, and the accumulator resets for the next frame.
    pub fn feed(&mut self, chunk: &[u8]) -> (r: FeedResult)
        ensures
            ({
                let combined = old(self).bytes() + chunk@;
                let scanned = after_scan_bytes(combined, old(self).is_anchored());
                let anch = after_scan_anchored(combined, old(self).is_anchored());
                if frame_ready(scanned, anch) {
                    let prefix = ready_prefix(scanned);
                    &&& final(self).bytes().len() == 0
                    &&& !final(self).is_anchored()
                    &&& match decode_err(prefix) {
                        Some(e) => r == FeedResult::Corrupt(e),
                        None => (r matches FeedResult::Frame(f) && {
                            &&& f.length == decoded_length(prefix)
                            &&& f.msg_type == decoded_msg(prefix)
                            &&& f.parameters@ == decoded_params(prefix)
                            &&& f.data@ == decoded_data(prefix)
                            &&& f.wf()
                        }),
                    }
                } else {
                    &&& r == FeedResult::Pending
                    &&& final(self).bytes() == scanned
                    &&& final(self).is_anchored() == anch
                }
            }),
    {
        let ghost combined = self.buf@ + chunk@;
        crate::frame::extend_bytes(&mut self.buf, chunk);
        if !self.anchored {
            match find_preamble(self.buf.as_slice()) {
                Some(k) => {
                    let rest = vstd::slice::slice_to_vec(
                        vstd::slice::slice_subrange(self.buf.as_slice(), k, self.buf.len()),
                    );
                    proof {
                        assert(rest@ =~= combined.skip(k as int));
                    }
                    self.buf = rest;
                    self.anchored = true;
                },
                None => {
                    if self.buf.len() > GCP_RESYNC_LIMIT {
                        self.buf = Vec::new();
                    }
                    return FeedResult::Pending;
                },
            }
        }
        if self.buf.len() >= 4 {
            let length = read_le16(self.buf.as_slice(), 2);
            let need = length as usize + 4;
            if self.buf.len() >= need {
                let res = GcpFrame::deserialize(
                    vstd::slice::slice_subrange(self.buf.as_slice(), 0, need),
                );
                self.buf = Vec::new();
                self.anchored = false;
                return match res {
                    Ok(f) => FeedResult::Frame(f),
                    Err(e) => FeedResult::Corrupt(e),
                };
            }
        }
        FeedResult::Pending
    }
}

/// The reader discards leading line noise. A stream of noise bytes that
/// contain no sync word, up to the resync limit long, followed by the
/// bytes of a well-formed frame, scans to exactly the frame's bytes, is
/// recognized as a complete candidate, and decodes back to the frame.
#[verifier::rlimit(50)]
pub proof fn lemma_reader_resync(noise: Seq<u8>, f: GcpFrame)
    requires
        noise.len() <= GCP_RESYNC_LIMIT,
        forall|k: int|
            0 <= k && k + 1 < noise.len() ==> !(#[trigger] noise[k] == GCP_PREAMBLE_0 && noise[k
                + 1] == GCP_PREAMBLE_1),
        round_trippable(f),
    ensures
        ({
            let stream = noise + f.wire_bytes();
            &&& after_scan_anchored(stream, false)
            &&& after_scan_bytes(stream, false) == f.wire_bytes()
            &&& frame_ready(f.wire_bytes(), true)
            &&& ready_prefix(f.wire_bytes()) == f.wire_bytes()
            &&& decode_err(f.wire_bytes()) is None
            &&& decoded_msg(f.wire_bytes()) == f.msg_type
            &&& decoded_params(f.wire_bytes()) == f.parameters@
            &&& decoded_data(f.wire_bytes()) == f.data@
        }),
{
    let w = f.wire_bytes();
    let stream = noise + w;
    lemma_frame_round_trip(f);
    assert(w.len() == f.length + 4);
    assert(w[0] == GCP_PREAMBLE_0 && w[1] == GCP_PREAMBLE_1);
    assert(is_pre_at(stream, noise.len() as int));
    assert forall|k: int| 0 <= k < noise.len() implies !is_pre_at(stream, k) by {
        if is_pre_at(stream, k) {
            if k + 1 < noise.len() {
                assert(stream[k] == noise[k] && stream[k + 1] == noise[k + 1]);
            } else {
                assert(stream[k + 1] == w[0]);
            }
        }
    }
    lemma_find_pre_at(stream, noise.len() as int);
    assert(stream.skip(noise.len() as int) =~= w);
    assert(le16(w[2], w[3]) == f.length);
    assert(ready_prefix(w) =~= w);
}

} // verus!
