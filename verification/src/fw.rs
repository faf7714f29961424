//! The firmware-update state machine: START → DATA×N → END with per-chunk
//! acknowledgment and bounded retry, abort to Idle from any state, and a
//! final CRC-32 check. The machine is pure: the caller sends the frames
//! it builds and feeds back the device's answers as events.

use vstd::prelude::*;
use crate::GCP_MAX_RETRIES;
use crate::engine::{EngineError, ack_payload, ack_prefix_skip, ack_response_bytes, nack_error};
use crate::frame::{GcpCommand, GcpFrame, push_le16, spec_le16};
use vstd::arithmetic::div_mod::{lemma_fundamental_div_mod, lemma_fundamental_div_mod_converse};
use vstd::arithmetic::mul::lemma_mul_inequality;

verus! {

/// Number of image bytes carried by chunk `i` when `total` bytes are cut
/// into `chunk`-byte pieces: `chunk` for every full piece, the remainder
/// for the last, 0 past the end.
pub open spec fn spec_chunk_len(total: int, chunk: int, i: int) -> int {
    if i * chunk >= total {
        0
    } else if i * chunk + chunk <= total {
        chunk
    } else {
        total - i * chunk
    }
}

/// The number of chunks an image of `total` bytes needs: `ceil(total / chunk)`.
pub open spec fn spec_num_chunks(total: int, chunk: int) -> int {
    (total + chunk - 1) / chunk
}

/// Total bytes in the first `n` chunks.
pub open spec fn spec_chunks_sum(total: int, chunk: int, n: int) -> int
    decreases n,
{
    if n <= 0 {
        0
    } else {
        spec_chunks_sum(total, chunk, n - 1) + spec_chunk_len(total, chunk, n - 1)
    }
}

/// The first `n` chunks carry `min(n * chunk, total)` bytes.
pub proof fn lemma_chunks_sum_partial(total: int, chunk: int, n: int)
    requires
        chunk >= 1,
        total >= 0,
        n >= 0,
    ensures
        spec_chunks_sum(total, chunk, n) == if n * chunk <= total {
            n * chunk
        } else {
            total
        },
    decreases n,
{
    if n > 0 {
        lemma_chunks_sum_partial(total, chunk, n - 1);
        assert((n - 1) * chunk == n * chunk - chunk) by (nonlinear_arith);
        let prev = spec_chunks_sum(total, chunk, n - 1);
        let len = spec_chunk_len(total, chunk, n - 1);
        assert(spec_chunks_sum(total, chunk, n) == prev + len);
        if (n - 1) * chunk >= total {
            assert(prev == total && len == 0);
            assert(n * chunk > total);
            assert(spec_chunks_sum(total, chunk, n) == total);
        } else if (n - 1) * chunk + chunk <= total {
            assert(prev == (n - 1) * chunk && len == chunk);
            assert(n * chunk <= total);
            assert(spec_chunks_sum(total, chunk, n) == n * chunk);
        } else {
            assert(prev == (n - 1) * chunk && len == total - (n - 1) * chunk);
            assert(n * chunk > total);
            assert(spec_chunks_sum(total, chunk, n) == total);
        }
    } else {
        assert(n == 0);
        assert(n * chunk == 0) by (nonlinear_arith)
            requires
                n == 0,
        ;
        assert(spec_chunks_sum(total, chunk, n) == 0);
    }
}

/// The chunks of the partition cover the image: the byte counts of all
/// `ceil(total / chunk)` chunks sum to exactly `total`, and that many
/// chunks reach `total` bytes.
pub proof fn lemma_chunks_cover(total: int, chunk: int)
    requires
        chunk >= 1,
        total >= 0,
    ensures
        spec_num_chunks(total, chunk) * chunk >= total,
        spec_chunks_sum(total, chunk, spec_num_chunks(total, chunk)) == total,
        total >= 1 ==> 1 <= spec_num_chunks(total, chunk) <= total,
{
    let n = spec_num_chunks(total, chunk);
    lemma_fundamental_div_mod(total + chunk - 1, chunk);
    assert(0 <= (total + chunk - 1) % chunk < chunk) by (nonlinear_arith)
        requires
            chunk >= 1,
            total >= 0,
    ;
    assert(n * chunk >= total) by (nonlinear_arith)
        requires
            total + chunk - 1 == chunk * n + (total + chunk - 1) % chunk,
            0 <= (total + chunk - 1) % chunk < chunk,
    ;
    lemma_chunks_sum_partial(total, chunk, n);
    if total >= 1 {
        assert(n >= 1) by (nonlinear_arith)
            requires
                total + chunk - 1 == chunk * n + (total + chunk - 1) % chunk,
                0 <= (total + chunk - 1) % chunk < chunk,
                total >= 1,
                chunk >= 1,
        ;
        assert(n <= total) by (nonlinear_arith)
            requires
                total + chunk - 1 == chunk * n + (total + chunk - 1) % chunk,
                0 <= (total + chunk - 1) % chunk < chunk,
                total >= 1,
                chunk >= 1,
        ;
    }
}

/// A chunk index below the chunk count starts strictly inside the image.
pub proof fn lemma_chunk_offset_bound(total: int, chunk: int, i: int)
    requires
        chunk >= 1,
        total >= 1,
        0 <= i < spec_num_chunks(total, chunk),
    ensures
        i * chunk < total,
        i * chunk + spec_chunk_len(total, chunk, i) <= total,
        spec_chunk_len(total, chunk, i) >= 1,
{
    let n = spec_num_chunks(total, chunk);
    lemma_fundamental_div_mod(total + chunk - 1, chunk);
    assert(0 <= (total + chunk - 1) % chunk < chunk) by (nonlinear_arith)
        requires
            chunk >= 1,
            total >= 0,
    ;
    assert((n - 1) * chunk <= total - 1) by (nonlinear_arith)
        requires
            total + chunk - 1 == chunk * n + (total + chunk - 1) % chunk,
            0 <= (total + chunk - 1) % chunk < chunk,
    ;
    lemma_mul_inequality(i, n - 1, chunk);
}

/// `ceil(total / chunk)` computed without overflow: the quotient, plus one
/// when the division leaves a remainder.
pub fn num_chunks(total_bytes: u32, chunk_size: u16) -> (r: u32)
    requires
        chunk_size >= 1,
    ensures
        r == spec_num_chunks(total_bytes as int, chunk_size as int),
{
    let c = chunk_size as u32;
    let q = total_bytes / c;
    let rem = total_bytes % c;
    proof {
        let t = total_bytes as int;
        let ci = chunk_size as int;
        let qi = q as int;
        lemma_fundamental_div_mod(t, ci);
        assert(t == ci * qi + rem as int);
        if rem == 0 {
            assert(t + ci - 1 == qi * ci + (ci - 1)) by (nonlinear_arith)
                requires
                    t == ci * qi,
            ;
            lemma_fundamental_div_mod_converse(t + ci - 1, ci, qi, ci - 1);
        } else {
            assert(t + ci - 1 == (qi + 1) * ci + (rem as int - 1)) by (nonlinear_arith)
                requires
                    t == ci * qi + rem as int,
            ;
            assert(qi <= qi * ci) by (nonlinear_arith)
                requires
                    ci >= 1,
                    qi >= 0,
            ;
            assert(qi * ci <= t - 1) by (nonlinear_arith)
                requires
                    t == ci * qi + rem as int,
                    rem as int >= 1,
            ;
            lemma_fundamental_div_mod_converse(t + ci - 1, ci, qi + 1, rem as int - 1);
        }
    }
    if rem == 0 {
        q
    } else {
        q + 1
    }
}

/// The in-image byte offset of chunk `i`.
pub fn chunk_offset(total_bytes: u32, chunk_size: u16, i: u32) -> (r: u32)
    requires
        chunk_size >= 1,
        total_bytes >= 1,
        i < spec_num_chunks(total_bytes as int, chunk_size as int),
    ensures
        r == i as int * chunk_size as int,
        r < total_bytes,
{
    proof {
        lemma_chunk_offset_bound(total_bytes as int, chunk_size as int, i as int);
    }
    i * (chunk_size as u32)
}

/// The byte count of chunk `i`: the chunk size for every chunk but
/// possibly the last.
pub fn chunk_len(total_bytes: u32, chunk_size: u16, i: u32) -> (r: u32)
    requires
        chunk_size >= 1,
        total_bytes >= 1,
        i < spec_num_chunks(total_bytes as int, chunk_size as int),
    ensures
        r == spec_chunk_len(total_bytes as int, chunk_size as int, i as int),
        1 <= r <= chunk_size,
        i as int * chunk_size as int + r <= total_bytes,
{
    proof {
        lemma_chunk_offset_bound(total_bytes as int, chunk_size as int, i as int);
    }
    let offset = chunk_offset(total_bytes, chunk_size, i);
    let c = chunk_size as u32;
    if total_bytes - offset >= c {
        c
    } else {
        total_bytes - offset
    }
}

/// The stage a firmware transfer is in.
#[derive(Clone, Copy, Debug, PartialEq, Eq, Structural)]
pub enum FwStage {
    Idle,
    Transferring,
    Completed,
    Failed,
}

/// Whether a progress event is due after chunk `i` (0-based) of `total`
/// was acknowledged: every fifth chunk and the final one.
pub open spec fn emit_at(i: int, total: int) -> bool {
    i % 5 == 0 || i == total - 1
}

/// How many of the first `n` chunk indices are progress-event points.
pub open spec fn spec_count_emits(total: int, n: int) -> int
    decreases n,
{
    if n <= 0 {
        0
    } else {
        spec_count_emits(total, n - 1) + if emit_at(n - 1, total) {
            1int
        } else {
            0int
        }
    }
}

/// Whether to emit a progress event after chunk `chunk_index` was
/// acknowledged.
pub fn should_emit_progress(chunk_index: u32, total_chunks: u32) -> (r: bool)
    requires
        total_chunks >= 1,
    ensures
        r == emit_at(chunk_index as int, total_chunks as int),
{
    chunk_index % 5 == 0 || chunk_index == total_chunks - 1
}

/// A progress event: where the transfer stands, in chunks and bytes.
#[derive(Clone, Copy, Debug, PartialEq, Eq, Structural)]
pub struct FwProgress {
    pub stage: FwStage,
    pub current_chunk: u32,
    pub total_chunks: u32,
    pub bytes_sent: u32,
    pub total_bytes: u32,
}

/// What a whole firmware update returned. A CRC-32 mismatch reported by
/// the device at FW_END is surfaced here as `crc32_match == false` with
/// `success == false`, not as an error: the transfer itself worked and
/// the caller decides whether to retry.
#[derive(Clone, Debug, PartialEq)]
pub struct FirmwareUpdateResult {
    pub success: bool,
    pub message: String,
    pub crc32_match: bool,
    pub total_chunks: u32,
    pub total_bytes: u32,
}

/// The firmware-update state machine. Callers build the frames it hands
/// out, send them, and feed the device's answer back through the `on_*`
/// methods; the machine sequences chunks strictly in order of offset and
/// enforces the retry budget.
pub struct FwUpdater {
    pub stage: FwStage,
    pub total_bytes: u32,
    pub chunk_size: u16,
    pub total_chunks: u32,
    pub next_chunk: u32,
    pub bytes_acked: u32,
    pub chunk_retries: u32,
    pub image_crc32: u32,
}

impl FwUpdater {
    /// The machine's internal invariant: the chunk count matches the
    /// image and chunk sizes, the cursor stays in range, the
    /// acknowledged-byte counter equals the bytes of the acknowledged
    /// chunks, and the per-chunk retry counter stays under the budget.
    /// The chunk size is bounded so one chunk and its offset fit a frame.
    pub open spec fn wf(self) -> bool {
        &&& self.chunk_size >= 1
        &&& self.chunk_size as int + 8 <= u16::MAX
        &&& self.total_bytes >= 1
        &&& self.total_chunks == spec_num_chunks(self.total_bytes as int, self.chunk_size as int)
        &&& self.next_chunk <= self.total_chunks
        &&& self.bytes_acked == spec_chunks_sum(
            self.total_bytes as int,
            self.chunk_size as int,
            self.next_chunk as int,
        )
        &&& self.chunk_retries < GCP_MAX_RETRIES
    }

    /// A machine in `Idle`, ready to start a transfer of `total_bytes`
    /// image bytes (whose CRC-32 is `image_crc32`) in `chunk_size`-byte
    /// pieces.
    pub fn new(total_bytes: u32, chunk_size: u16, image_crc32: u32) -> (r: FwUpdater)
        requires
            total_bytes >= 1,
            chunk_size >= 1,
            chunk_size as int + 8 <= u16::MAX,
        ensures
            r.wf(),
            r.stage == FwStage::Idle,
            r.total_bytes == total_bytes,
            r.chunk_size == chunk_size,
            r.image_crc32 == image_crc32,
            r.total_chunks == spec_num_chunks(total_bytes as int, chunk_size as int),
            r.next_chunk == 0,
            r.bytes_acked == 0,
            r.chunk_retries == 0,
    {
        let total_chunks = num_chunks(total_bytes, chunk_size);
        FwUpdater {
            stage: FwStage::Idle,
            total_bytes,
            chunk_size,
            total_chunks,
            next_chunk: 0,
            bytes_acked: 0,
            chunk_retries: 0,
            image_crc32,
        }
    }

    /// The FW_START request: parameters `fw_size(4) ‖ fw_crc32(4) ‖
    /// chunk_size(2) ‖ reserved(2)`, all little-endian.
    pub fn start_frame(&self) -> (f: GcpFrame)
        ensures
            f.msg_type == GcpCommand::FwUpdateStart,
            f.parameters@ == spec_le32(self.total_bytes) + spec_le32(self.image_crc32) + spec_le16(
                self.chunk_size,
            ) + seq![0u8, 0u8],
            f.data@.len() == 0,
            f.length == 16,
            f.wf(),
    {
        let mut params: Vec<u8> = Vec::new();
        push_le32(&mut params, self.total_bytes);
        push_le32(&mut params, self.image_crc32);
        push_le16(&mut params, self.chunk_size);
        params.push(0);
        params.push(0);
        assert(params@ =~= spec_le32(self.total_bytes) + spec_le32(self.image_crc32) + spec_le16(
            self.chunk_size,
        ) + seq![0u8, 0u8]);
        GcpFrame::with_parameters(GcpCommand::FwUpdateStart, params)
    }

    /// Feed back the device's answer to FW_START: an acceptance moves the
    /// machine to `Transferring`, a rejection leaves it `Idle`.
    pub fn on_start_response(&mut self, accepted: bool)
        requires
            old(self).wf(),
            old(self).stage == FwStage::Idle,
        ensures
            final(self).wf(),
            final(self).stage == if accepted {
                FwStage::Transferring
            } else {
                FwStage::Idle
            },
            *final(self) == (FwUpdater { stage: final(self).stage, ..*old(self) }),
    {
        if accepted {
            self.stage = FwStage::Transferring;
        }
    }

    /// The FW_DATA request for the next chunk: parameters carry the
    /// in-image byte offset `next_chunk * chunk_size` little-endian, the
    /// data is that chunk of the image.
    pub fn data_frame(&self, image: &Vec<u8>) -> (f: GcpFrame)
        requires
            self.wf(),
            self.stage == FwStage::Transferring,
            self.next_chunk < self.total_chunks,
            image@.len() == self.total_bytes,
        ensures
            ({
                let off = self.next_chunk as int * self.chunk_size as int;
                let len = spec_chunk_len(self.total_bytes as int, self.chunk_size as int,
                    self.next_chunk as int);
                &&& f.msg_type == GcpCommand::FwUpdateData
                &&& f.parameters@ == spec_le32((off as u32))
                &&& f.data@ == image@.subrange(off, off + len)
                &&& f.wf()
            }),
    {
        let off = chunk_offset(self.total_bytes, self.chunk_size, self.next_chunk);
        let len = chunk_len(self.total_bytes, self.chunk_size, self.next_chunk);
        let mut params: Vec<u8> = Vec::new();
        push_le32(&mut params, off);
        assert(params@ =~= spec_le32(off));
        let chunk = vstd::slice::slice_to_vec(
            vstd::slice::slice_subrange(image.as_slice(), off as usize, (off + len) as usize),
        );
        GcpFrame::with_data(GcpCommand::FwUpdateData, params, chunk)
    }

    /// Feed back an ACK for the chunk just sent: the cursor advances, the
    /// acknowledged bytes grow by that chunk's size, and the retry
    /// counter resets.
    pub fn on_chunk_ack(&mut self)
        requires
            old(self).wf(),
            old(self).stage == FwStage::Transferring,
            old(self).next_chunk < old(self).total_chunks,
        ensures
            final(self).wf(),
            final(self).stage == FwStage::Transferring,
            final(self).next_chunk == old(self).next_chunk + 1,
            final(self).bytes_acked == old(self).bytes_acked + spec_chunk_len(
                old(self).total_bytes as int,
                old(self).chunk_size as int,
                old(self).next_chunk as int,
            ),
            final(self).chunk_retries == 0,
            *final(self) == (FwUpdater {
                next_chunk: final(self).next_chunk,
                bytes_acked: final(self).bytes_acked,
                chunk_retries: 0,
                ..*old(self)
            }),
    {
        proof {
            let t = self.total_bytes as int;
            let c = self.chunk_size as int;
            let i = self.next_chunk as int;
            lemma_chunks_sum_partial(t, c, i + 1);
            lemma_chunks_sum_partial(t, c, i);
        }
        let len = chunk_len(self.total_bytes, self.chunk_size, self.next_chunk);
        self.bytes_acked = self.bytes_acked + len;
        self.next_chunk = self.next_chunk + 1;
        self.chunk_retries = 0;
    }

    /// Feed back a failed attempt for the chunk just sent: a transient
    /// failure inside the retry budget keeps the machine `Transferring`
    /// with one more retry recorded; a fatal failure, or a transient one
    /// that exhausts the budget, fails the transfer.
    pub fn on_chunk_nack(&mut self, transient: bool)
        requires
            old(self).wf(),
            old(self).stage == FwStage::Transferring,
            old(self).next_chunk < old(self).total_chunks,
        ensures
            final(self).wf(),
            ({
                if transient && old(self).chunk_retries + 1 < GCP_MAX_RETRIES {
                    &&& final(self).stage == FwStage::Transferring
                    &&& final(self).chunk_retries == old(self).chunk_retries + 1
                } else {
                    &&& final(self).stage == FwStage::Failed
                    &&& final(self).chunk_retries == 0
                }
            }),
            *final(self) == (FwUpdater {
                stage: final(self).stage,
                chunk_retries: final(self).chunk_retries,
                ..*old(self)
            }),
    {
        if transient && self.chunk_retries + 1 < GCP_MAX_RETRIES {
            self.chunk_retries = self.chunk_retries + 1;
        } else {
            self.stage = FwStage::Failed;
            self.chunk_retries = 0;
        }
    }

    /// Whether every chunk has been acknowledged.
    pub fn all_chunks_sent(&self) -> (r: bool)
        ensures
            r == (self.next_chunk == self.total_chunks),
    {
        self.next_chunk == self.total_chunks
    }

    /// The FW_END request (header-only).
    pub fn end_frame(&self) -> (f: GcpFrame)
        requires
            self.wf(),
            self.stage == FwStage::Transferring,
            self.next_chunk == self.total_chunks,
        ensures
            f.msg_type == GcpCommand::FwUpdateEnd,
            f.length == 6,
            f.wf(),
    {
        GcpFrame::new(GcpCommand::FwUpdateEnd)
    }

    /// Feed back the device's FW_END answer: a CRC-32 match completes
    /// the transfer, a mismatch fails it terminally (never re-transferred).
    pub fn on_end_response(&mut self, crc_match: bool)
        requires
            old(self).wf(),
            old(self).stage == FwStage::Transferring,
            old(self).next_chunk == old(self).total_chunks,
        ensures
            final(self).wf(),
            final(self).stage == if crc_match {
                FwStage::Completed
            } else {
                FwStage::Failed
            },
            *final(self) == (FwUpdater { stage: final(self).stage, ..*old(self) }),
    {
        if crc_match {
            self.stage = FwStage::Completed;
        } else {
            self.stage = FwStage::Failed;
        }
    }

    /// The FW_ABORT request (header-only).
    pub fn abort_frame(&self) -> (f: GcpFrame)
        ensures
            f.msg_type == GcpCommand::FwUpdateAbort,
            f.length == 6,
            f.wf(),
    {
        GcpFrame::new(GcpCommand::FwUpdateAbort)
    }

    /// Cancel the transfer: from any stage the machine returns to `Idle`
    /// and emits nothing further.
    pub fn on_abort(&mut self)
        requires
            old(self).wf(),
        ensures
            final(self).wf(),
            final(self).stage == FwStage::Idle,
            *final(self) == (FwUpdater { stage: FwStage::Idle, ..*old(self) }),
    {
        self.stage = FwStage::Idle;
    }

    /// Where the transfer stands, for progress reporting.
    pub fn progress(&self) -> (p: FwProgress)
        ensures
            p.stage == self.stage,
            p.current_chunk == self.next_chunk,
            p.total_chunks == self.total_chunks,
            p.bytes_sent == self.bytes_acked,
            p.total_bytes == self.total_bytes,
    {
        FwProgress {
            stage: self.stage,
            current_chunk: self.next_chunk,
            total_chunks: self.total_chunks,
            bytes_sent: self.bytes_acked,
            total_bytes: self.total_bytes,
        }
    }
}

/// The four little-endian bytes of a u32.
pub open spec fn spec_le32(v: u32) -> Seq<u8> {
    seq![
        (v % 256) as u8,
        ((v / 256) % 256) as u8,
        ((v / 65536) % 256) as u8,
        ((v / 16777216) % 256) as u8,
    ]
}

/// Append the four little-endian bytes of `x`.
pub fn push_le32(v: &mut Vec<u8>, x: u32)
    ensures
        final(v)@ == old(v)@ + spec_le32(x),
{
    v.push((x % 256) as u8);
    v.push(((x / 256) % 256) as u8);
    v.push(((x / 65536) % 256) as u8);
    v.push(((x / 16777216) % 256) as u8);
    assert(v@ =~= old(v)@ + spec_le32(x));
}

/// Total FW_DATA attempts over the first `n` chunks when chunk `i` costs
/// `nacks[i]` failed attempts before its ACK.
pub open spec fn spec_attempts(nacks: Seq<u8>, n: int) -> int
    decreases n,
{
    if n <= 0 {
        0
    } else {
        spec_attempts(nacks, n - 1) + nacks[n - 1] + 1
    }
}

/// Every chunk's fault burst stays within the retry budget: at most
/// `GCP_MAX_RETRIES - 1` transient NACKs before the ACK.
pub open spec fn all_transient(nacks: Seq<u8>) -> bool {
    forall|i: int| 0 <= i < nacks.len() ==> (#[trigger] nacks[i]) as int + 1 <= GCP_MAX_RETRIES
}

/// A fault-free transfer makes exactly one FW_DATA attempt per chunk.
pub proof fn lemma_attempts_without_faults(nacks: Seq<u8>, n: int)
    requires
        0 <= n <= nacks.len(),
        forall|i: int| 0 <= i < n ==> #[trigger] nacks[i] == 0,
    ensures
        spec_attempts(nacks, n) == n,
    decreases n,
{
    if n > 0 {
        lemma_attempts_without_faults(nacks, n - 1);
    }
}

/// The attempt count lies between one per chunk and 256 per chunk.
pub proof fn lemma_attempts_bound(nacks: Seq<u8>, n: int)
    requires
        0 <= n <= nacks.len(),
    ensures
        n <= spec_attempts(nacks, n) <= 256 * n,
    decreases n,
{
    if n > 0 {
        lemma_attempts_bound(nacks, n - 1);
    }
}

/// What one whole scripted firmware transfer did.
#[derive(Clone, Debug, PartialEq)]
pub struct FwRunReport {
    pub result: FirmwareUpdateResult,
    pub final_stage: FwStage,
    /// FW_DATA frames sent, retransmissions included.
    pub data_frames_sent: u64,
    /// Chunks acknowledged; each yields one successful-chunk progress
    /// event.
    pub chunks_acked: u32,
    /// Cadence progress events (every fifth chunk and the final one).
    pub progress_emits: u32,
}

/// Run one whole firmware transfer against a scripted device: the device
/// answers FW_START with `start_accepted`, answers chunk `i` with
/// `nacks_before_ack[i]` transient NACKs and then an ACK (an entry of
/// `GCP_MAX_RETRIES` or more means the chunk never gets through and the
/// transfer fails), and reports `end_crc_match` at FW_END. Within the
/// retry budget the transfer completes with every chunk acknowledged
/// exactly once, `ceil(len / chunk_size)` in all, carrying the whole
/// image.
#[verifier::loop_isolation(false)]
pub fn run_firmware_update(
    image: &Vec<u8>,
    chunk_size: u16,
    nacks_before_ack: &Vec<u8>,
    start_accepted: bool,
    end_crc_match: bool,
) -> (report: FwRunReport)
    requires
        1 <= image@.len() <= u32::MAX,
        chunk_size >= 1,
        chunk_size as int + 8 <= u16::MAX,
        nacks_before_ack@.len() == spec_num_chunks(image@.len() as int, chunk_size as int),
    ensures
        ({
            let total = image@.len() as int;
            let n = spec_num_chunks(total, chunk_size as int);
            &&& (!start_accepted ==> {
                &&& report.final_stage == FwStage::Idle
                &&& !report.result.success
                &&& !report.result.crc32_match
                &&& report.chunks_acked == 0
                &&& report.data_frames_sent == 0
            })
            &&& (start_accepted && all_transient(nacks_before_ack@) ==> {
                &&& report.final_stage == if end_crc_match {
                    FwStage::Completed
                } else {
                    FwStage::Failed
                }
                &&& report.result.success == end_crc_match
                &&& report.result.crc32_match == end_crc_match
                &&& report.result.total_chunks == n
                &&& report.result.total_bytes == total
                &&& report.chunks_acked == n
                &&& report.data_frames_sent == spec_attempts(nacks_before_ack@, n)
                &&& report.progress_emits == spec_count_emits(n, n)
                &&& report.result.message@ == if end_crc_match {
                    "firmware update completed"@
                } else {
                    "firmware CRC-32 mismatch reported by device"@
                }
            })
            &&& (start_accepted && !all_transient(nacks_before_ack@) ==> {
                &&& report.final_stage == FwStage::Failed
                &&& !report.result.success
                &&& !report.result.crc32_match
            })
        }),
{
    let total_bytes = image.len() as u32;
    let crc = crate::crc::gcp_crc32(image.as_slice());
    let mut fsm = FwUpdater::new(total_bytes, chunk_size, crc);
    if !start_accepted {
        fsm.on_start_response(false);
        return FwRunReport {
            result: FirmwareUpdateResult {
                success: false,
                message: "firmware start rejected by device".to_owned(),
                crc32_match: false,
                total_chunks: fsm.total_chunks,
                total_bytes: 0,
            },
            final_stage: fsm.stage,
            data_frames_sent: 0,
            chunks_acked: 0,
            progress_emits: 0,
        };
    }
    fsm.on_start_response(true);
    let mut data_frames_sent: u64 = 0;
    let mut chunks_acked: u32 = 0;
    let mut progress_emits: u32 = 0;
    while fsm.stage == FwStage::Transferring && fsm.next_chunk < fsm.total_chunks
        invariant
            fsm.wf(),
            fsm.total_bytes == total_bytes,
            fsm.chunk_size == chunk_size,
            fsm.stage == FwStage::Transferring || fsm.stage == FwStage::Failed,
            fsm.stage == FwStage::Transferring ==> fsm.chunk_retries == 0,
            chunks_acked == fsm.next_chunk,
            progress_emits <= chunks_acked,
            progress_emits == spec_count_emits(fsm.total_chunks as int, fsm.next_chunk as int),
            fsm.stage == FwStage::Transferring ==> data_frames_sent == spec_attempts(
                nacks_before_ack@,
                fsm.next_chunk as int,
            ),
            fsm.stage == FwStage::Transferring ==> forall|j: int|
                0 <= j < fsm.next_chunk ==> (#[trigger] nacks_before_ack@[j]) as int + 1
                    <= GCP_MAX_RETRIES,
            data_frames_sent <= 256 * (fsm.next_chunk as u64) + 256,
            fsm.stage == FwStage::Failed ==> !all_transient(nacks_before_ack@),
        decreases
                fsm.total_chunks - fsm.next_chunk + (if fsm.stage == FwStage::Transferring {
                    1int
                } else {
                    0int
                }),
    {
        let i = fsm.next_chunk;
        let n_i = nacks_before_ack[i as usize];
        let ghost base = data_frames_sent;
        proof {
            lemma_attempts_bound(nacks_before_ack@, i as int);
        }
        let mut a: u8 = 0;
        while a < n_i && fsm.stage == FwStage::Transferring
            invariant
                fsm.wf(),
                a <= n_i,
                fsm.total_bytes == total_bytes,
                fsm.chunk_size == chunk_size,
                fsm.next_chunk == i,
                fsm.stage == FwStage::Transferring || fsm.stage == FwStage::Failed,
                fsm.stage == FwStage::Transferring ==> fsm.chunk_retries == a as u32 && (
                a as u32) < GCP_MAX_RETRIES,
                fsm.stage == FwStage::Failed ==> (a as u32) == GCP_MAX_RETRIES && a <= n_i,
                data_frames_sent == base + a as u64,
            decreases n_i - a,
        {
            data_frames_sent = data_frames_sent + 1;
            fsm.on_chunk_nack(true);
            a = a + 1;
        }
        if fsm.stage == FwStage::Transferring {
            data_frames_sent = data_frames_sent + 1;
            fsm.on_chunk_ack();
            chunks_acked = chunks_acked + 1;
            proof {
                assert(data_frames_sent == spec_attempts(nacks_before_ack@, i as int + 1));
                lemma_attempts_bound(nacks_before_ack@, i as int + 1);
            }
            if should_emit_progress(i, fsm.total_chunks) {
                progress_emits = progress_emits + 1;
            }
        } else {
            proof {
                assert((nacks_before_ack@[i as int] as int) + 1 > GCP_MAX_RETRIES);
                assert(!all_transient(nacks_before_ack@));
            }
        }
    }
    if fsm.stage == FwStage::Transferring {
        proof {
            lemma_chunks_cover(total_bytes as int, chunk_size as int);
            assert(all_transient(nacks_before_ack@));
        }
        fsm.on_end_response(end_crc_match);
        let message = if end_crc_match {
            "firmware update completed".to_owned()
        } else {
            "firmware CRC-32 mismatch reported by device".to_owned()
        };
        FwRunReport {
            result: FirmwareUpdateResult {
                success: end_crc_match,
                message,
                crc32_match: end_crc_match,
                total_chunks: fsm.total_chunks,
                total_bytes: fsm.bytes_acked,
            },
            final_stage: fsm.stage,
            data_frames_sent,
            chunks_acked,
            progress_emits,
        }
    } else {
        FwRunReport {
            result: FirmwareUpdateResult {
                success: false,
                message: "firmware transfer failed".to_owned(),
                crc32_match: false,
                total_chunks: fsm.total_chunks,
                total_bytes: fsm.bytes_acked,
            },
            final_stage: fsm.stage,
            data_frames_sent,
            chunks_acked,
            progress_emits,
        }
    }
}

/// Read the CRC-match flag out of the device's FW_END ACK. After the
/// echoed command and sequence number (when present) the ACK carries one
/// response byte: nonzero means the device's CRC-32 of the received image
/// matched the one announced at FW_START.
pub fn parse_fw_end_ack(frame: &GcpFrame) -> (r: Result<bool, EngineError>)
    ensures
        ({
            let all = ack_payload(*frame);
            match frame.msg_type {
                GcpCommand::Ack => {
                    let skip = ack_prefix_skip(all, 0x1003, 1);
                    if all.len() >= skip + 1 {
                        r matches Ok(m) && m == (all[skip] != 0)
                    } else {
                        r == Err::<bool, EngineError>(EngineError::InvalidResponse)
                    }
                },
                GcpCommand::Nack => r == Err::<bool, EngineError>(nack_error(all)),
                _ => r == Err::<bool, EngineError>(EngineError::InvalidResponse),
            }
        }),
{
    match ack_response_bytes(frame, 0x1003, 1) {
        Ok(v) => Ok(v[0] != 0),
        Err(e) => Err(e),
    }
}

} // verus!
