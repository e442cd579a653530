use vstd::prelude::*;

use crate::error::{EncoderError, ENGINE_ENCODE_EOF, ENGINE_OK};

verus! {

/// Number of interleaved channels of the PCM input.
pub const CHANNELS: u32 = 2;

/// Size in bytes of one PCM sample.
pub const SAMPLE_BYTES: u32 = 2;

/// Cumulative totals of a finished encode session.
#[derive(Debug, Clone, Copy, PartialEq, Eq, Structural)]
pub struct EncodeInfo {
    /// Input samples the engine reported as consumed.
    pub input_consumed: usize,
    /// Bytes of compressed output written to the sink.
    pub output_size: usize,
}

/// Sizing facts that the engine reports once configured.
#[derive(Debug, Clone, Copy, PartialEq, Eq, Structural)]
pub struct FrameGeometry {
    /// Samples per channel that the engine takes for one frame.
    pub frame_length: u32,
    /// Channels the engine expects in its input.
    pub input_channels: u32,
    /// Largest number of bitstream bytes that one frame can produce.
    pub max_out_buf_bytes: u32,
}

/// Where the encode loop stands.
#[derive(Debug, Clone, Copy, PartialEq, Eq, Structural)]
pub enum Phase {
    /// Waiting for the next chunk from the input source.
    Reading,
    /// Waiting for the engine's answer on a chunk of `bytes` bytes.
    Encoding { bytes: usize },
    /// Waiting for `produced` bytes to reach the sink; the call consumed
    /// `consumed` samples.
    Writing { produced: usize, consumed: usize },
    /// Terminal: the input ran out or the engine signalled end of stream.
    Done,
    /// Terminal: the engine reported an error.
    Failed,
}

/// What the driver of the loop does next.
pub enum Step {
    /// Read up to `len` bytes from the input source into the input buffer.
    Read { len: usize },
    /// Hand the first `bytes` bytes of the input buffer, `samples` samples, to
    /// the engine, with the whole output buffer as scratch.
    Encode { bytes: usize, samples: usize },
    /// Write the first `len` bytes of the output buffer to the sink.
    Write { len: usize },
    /// The session is finished with these totals.
    Finish(EncodeInfo),
    /// The session failed with this error; no further engine call is made.
    Fail(EncoderError),
}

/// The mathematical state of the encode loop.
pub struct LoopView {
    /// Size of the input and output buffers in bytes.
    pub chunk: nat,
    pub phase: Phase,
    /// Samples consumed so far, as the engine reported them.
    pub consumed: nat,
    /// Bytes written to the sink so far.
    pub written: nat,
    /// Samples read from the input source so far.
    pub samples_read: nat,
    /// Data calls made to the engine so far.
    pub calls: nat,
    /// Reads that returned at least one byte.
    pub filled_reads: nat,
}

/// Buffer size for a frame length: two bytes for each sample of each channel.
pub open spec fn chunk_of(frame_length: u32) -> nat {
    (SAMPLE_BYTES * CHANNELS) as nat * frame_length as nat
}

/// The loop as it starts, before any read.
pub open spec fn initial(chunk: nat) -> LoopView {
    LoopView {
        chunk,
        phase: Phase::Reading,
        consumed: 0,
        written: 0,
        samples_read: 0,
        calls: 0,
        filled_reads: 0,
    }
}

/// The state after a read that returned `n` bytes.
pub open spec fn after_read(s: LoopView, n: nat) -> LoopView {
    if n == 0 {
        LoopView { phase: Phase::Done, ..s }
    } else {
        LoopView {
            phase: Phase::Encoding { bytes: n as usize },
            samples_read: s.samples_read + n / 2,
            filled_reads: s.filled_reads + 1,
            ..s
        }
    }
}

/// The state after the engine answered a data call.
pub open spec fn after_encode(s: LoopView, code: u32, consumed: nat, produced: nat) -> LoopView {
    let s2 = LoopView { calls: s.calls + 1, ..s };
    if code == ENGINE_OK {
        LoopView { phase: Phase::Writing { produced: produced as usize, consumed: consumed as usize }, ..s2 }
    } else if code == ENGINE_ENCODE_EOF {
        LoopView { phase: Phase::Done, ..s2 }
    } else {
        LoopView { phase: Phase::Failed, ..s2 }
    }
}

/// The state after the produced bytes were written to the sink.
pub open spec fn after_write(s: LoopView) -> LoopView {
    match s.phase {
        Phase::Writing { produced, consumed } => LoopView {
            phase: Phase::Reading,
            consumed: s.consumed + consumed as nat,
            written: s.written + produced as nat,
            ..s
        },
        _ => s,
    }
}

impl LoopView {
    /// The totals as the session reports them.
    pub open spec fn info(self) -> EncodeInfo {
        EncodeInfo { input_consumed: self.consumed as usize, output_size: self.written as usize }
    }

    /// The invariant of every reachable state.
    pub open spec fn wf(self) -> bool {
        &&& self.consumed <= self.samples_read
        &&& self.consumed <= usize::MAX
        &&& self.written <= usize::MAX
        &&& self.chunk <= usize::MAX
        &&& match self.phase {
            Phase::Encoding { bytes } => {
                &&& 0 < bytes <= self.chunk
                &&& self.consumed + bytes as nat / 2 <= self.samples_read
                &&& self.filled_reads == self.calls + 1
            },
            Phase::Writing { produced, consumed } => {
                &&& self.consumed + consumed <= self.samples_read
                &&& self.consumed + consumed <= usize::MAX
                &&& self.written + produced <= usize::MAX
                &&& produced <= self.chunk
                &&& self.filled_reads == self.calls
            },
            _ => self.filled_reads == self.calls,
        }
    }
}

/// The streaming encode loop: it decides, from what the input source, the
/// engine and the sink reported, what the driver does next.
pub struct EncodeLoop {
    chunk: usize,
    phase: Phase,
    consumed: usize,
    written: usize,
    samples_read: Ghost<nat>,
    calls: Ghost<nat>,
    filled_reads: Ghost<nat>,
}

impl View for EncodeLoop {
    type V = LoopView;

    closed spec fn view(&self) -> LoopView {
        LoopView {
            chunk: self.chunk as nat,
            phase: self.phase,
            consumed: self.consumed as nat,
            written: self.written as nat,
            samples_read: self.samples_read@,
            calls: self.calls@,
            filled_reads: self.filled_reads@,
        }
    }
}

impl EncodeLoop {
    /// Starts a loop whose buffers hold one frame of every channel.
    pub fn new(geometry: &FrameGeometry) -> (r: EncodeLoop)
        requires
            chunk_of(geometry.frame_length) <= usize::MAX,
        ensures
            r@ == initial(chunk_of(geometry.frame_length)),
            r@.wf(),
    {
        let chunk = (SAMPLE_BYTES as usize) * (CHANNELS as usize) * (geometry.frame_length as usize);
        EncodeLoop {
            chunk,
            phase: Phase::Reading,
            consumed: 0,
            written: 0,
            samples_read: Ghost(0),
            calls: Ghost(0),
            filled_reads: Ghost(0),
        }
    }

    /// Size in bytes of the input and output buffers.
    pub fn chunk_len(&self) -> (r: usize)
        ensures
            r == self@.chunk,
    {
        self.chunk
    }

    pub fn phase(&self) -> (r: Phase)
        ensures
            r == self@.phase,
    {
        self.phase
    }

    /// The totals counted so far.
    pub fn totals(&self) -> (r: EncodeInfo)
        ensures
            r == self@.info(),
    {
        EncodeInfo { input_consumed: self.consumed, output_size: self.written }
    }

    /// The first step of the loop: read one chunk.
    pub fn start(&self) -> (r: Step)
        requires
            self@.phase == Phase::Reading,
        ensures
            r == (Step::Read { len: self@.chunk as usize }),
    {
        Step::Read { len: self.chunk }
    }

    /// The input source returned `n` bytes. None ends the loop with the
    /// totals so far; otherwise exactly those bytes go to the engine.
    pub fn on_read(&mut self, n: usize) -> (r: Step)
        requires
            old(self)@.wf(),
            old(self)@.phase == Phase::Reading,
            n <= old(self)@.chunk,
        ensures
            final(self)@ == after_read(old(self)@, n as nat),
            final(self)@.wf(),
            n == 0 ==> r == Step::Finish(old(self)@.info()),
            n > 0 ==> r == (Step::Encode { bytes: n, samples: n / 2 }),
    {
        if n == 0 {
            self.phase = Phase::Done;
            Step::Finish(EncodeInfo { input_consumed: self.consumed, output_size: self.written })
        } else {
            self.phase = Phase::Encoding { bytes: n };
            self.samples_read = Ghost(self.samples_read@ + (n / 2) as nat);
            self.filled_reads = Ghost(self.filled_reads@ + 1);
            Step::Encode { bytes: n, samples: n / 2 }
        }
    }

    /// The engine answered a data call with status `code`, having consumed
    /// `consumed` samples and produced `produced` bytes. On OK the produced
    /// bytes are written; at end of stream the loop finishes without writing
    /// anything of this call; any other code fails the session.
    pub fn on_encoded(&mut self, code: u32, consumed: usize, produced: usize) -> (r: Step)
        requires
            old(self)@.wf(),
            old(self)@.phase is Encoding,
            code == ENGINE_OK ==> {
                &&& consumed <= old(self)@.phase->bytes / 2
                &&& produced <= old(self)@.chunk
                &&& old(self)@.consumed + consumed <= usize::MAX
                &&& old(self)@.written + produced <= usize::MAX
            },
        ensures
            final(self)@ == after_encode(old(self)@, code, consumed as nat, produced as nat),
            final(self)@.wf(),
            code == ENGINE_OK ==> r == (Step::Write { len: produced }),
            code == ENGINE_ENCODE_EOF ==> r == Step::Finish(old(self)@.info()),
            code != ENGINE_OK && code != ENGINE_ENCODE_EOF ==> r == Step::Fail(EncoderError::FdkAac(code)),
    {
        self.calls = Ghost(self.calls@ + 1);
        if code == ENGINE_OK {
            self.phase = Phase::Writing { produced, consumed };
            Step::Write { len: produced }
        } else if code == ENGINE_ENCODE_EOF {
            self.phase = Phase::Done;
            Step::Finish(EncodeInfo { input_consumed: self.consumed, output_size: self.written })
        } else {
            self.phase = Phase::Failed;
            Step::Fail(EncoderError::FdkAac(code))
        }
    }

    /// The produced bytes reached the sink: count them and read on.
    pub fn on_written(&mut self) -> (r: Step)
        requires
            old(self)@.wf(),
            old(self)@.phase is Writing,
        ensures
            final(self)@ == after_write(old(self)@),
            final(self)@.wf(),
            r == (Step::Read { len: old(self)@.chunk as usize }),
    {
        match self.phase {
            Phase::Writing { produced, consumed } => {
                self.consumed = self.consumed + consumed;
                self.written = self.written + produced;
            },
            _ => {},
        }
        self.phase = Phase::Reading;
        Step::Read { len: self.chunk }
    }
}

/// One round on a full chunk that the engine accepts: read, encode, write.
pub open spec fn full_round(s: LoopView, consumed: nat, produced: nat) -> LoopView {
    after_write(after_encode(after_read(s, s.chunk), ENGINE_OK, consumed, produced))
}

/// The state after a run of full-chunk rounds, the `i`-th consuming
/// `consumed[i]` samples and producing `produced[i]` bytes.
pub open spec fn full_rounds(s: LoopView, consumed: Seq<nat>, produced: Seq<nat>) -> LoopView
    decreases consumed.len(),
{
    if consumed.len() == 0 || produced.len() == 0 {
        s
    } else {
        full_rounds(
            full_round(s, consumed[0], produced[0]),
            consumed.drop_first(),
            produced.drop_first(),
        )
    }
}

/// An input source that yields `k` full chunks and then 0 bytes makes exactly
/// `k` data calls to the engine, and the loop is then done, so that no call
/// follows.
pub proof fn lemma_full_chunks_then_end(s: LoopView, consumed: Seq<nat>, produced: Seq<nat>)
    requires
        s.phase == Phase::Reading,
        s.chunk > 0,
        consumed.len() == produced.len(),
    ensures
        full_rounds(s, consumed, produced).phase == Phase::Reading,
        full_rounds(s, consumed, produced).calls == s.calls + consumed.len(),
        after_read(full_rounds(s, consumed, produced), 0).phase == Phase::Done,
        after_read(full_rounds(s, consumed, produced), 0).calls == s.calls + consumed.len(),
    decreases consumed.len(),
{
    if consumed.len() > 0 {
        let t = full_round(s, consumed[0], produced[0]);
        lemma_full_chunks_then_end(t, consumed.drop_first(), produced.drop_first());
    }
}

/// In every reachable state the samples reported as consumed do not exceed
/// the samples read from the input source, and so neither do the totals that
/// the session reports.
pub proof fn lemma_consumed_within_read(s: LoopView)
    requires
        s.wf(),
    ensures
        s.info().input_consumed <= s.samples_read,
        after_read(s, 0).info().input_consumed <= after_read(s, 0).samples_read,
{
}

/// An input source that is empty from the start finishes a fresh loop with
/// zero totals and without any data call.
pub proof fn lemma_empty_input(chunk: nat)
    requires
        chunk <= usize::MAX,
    ensures
        after_read(initial(chunk), 0).phase == Phase::Done,
        after_read(initial(chunk), 0).calls == 0,
        after_read(initial(chunk), 0).info() == (EncodeInfo { input_consumed: 0, output_size: 0 }),
{
}

/// At the engine's end of stream the loop is done: nothing more is written,
/// the totals stay as they were, and the loop is terminal.
pub proof fn lemma_end_of_stream_writes_nothing(s: LoopView, consumed: nat, produced: nat)
    requires
        s.wf(),
        s.phase is Encoding,
    ensures
        after_encode(s, ENGINE_ENCODE_EOF, consumed, produced).phase == Phase::Done,
        after_encode(s, ENGINE_ENCODE_EOF, consumed, produced).written == s.written,
        after_encode(s, ENGINE_ENCODE_EOF, consumed, produced).info() == s.info(),
        after_write(after_encode(s, ENGINE_ENCODE_EOF, consumed, produced))
            == after_encode(s, ENGINE_ENCODE_EOF, consumed, produced),
{
}

} // verus!
