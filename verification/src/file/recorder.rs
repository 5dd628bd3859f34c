//! A record/replay wrapper for byte sources that cannot seek: a caller can
//! record a prefix of the stream, rewind, and have that prefix re-delivered
//! transparently, without the underlying source ever being read twice for the
//! same byte.
use crate::source::{ByteSource, SourceError};
use vstd::prelude::*;

verus! {

/// Wraps a byte source and can record past reads for replay.
///
/// While recording is on, every byte obtained from the underlying source is
/// appended to an internal buffer. `rewind_to_start_of_recording` points a
/// replay cursor at that buffer's start; subsequent reads are then served
/// from the buffer first and only fall through to the source for whatever the
/// buffer cannot supply. Once a replay has moved past the buffer's end and at
/// least one new byte has flowed from the source with recording off, the
/// buffer is dropped and its storage released.
pub struct ReadRecorder<S: ByteSource> {
    source: S,
    recorded_data: Vec<u8>,
    cursor_pos: Option<usize>,
    recording: bool,
    served: Ghost<Seq<u8>>,
}

impl<S: ByteSource> ReadRecorder<S> {
    /// The recording buffer's contents.
    pub closed spec fn recording_buffer(&self) -> Seq<u8> {
        self.recorded_data@
    }

    /// The replay cursor: `None` when not replaying, else the offset into the
    /// recording buffer from which the next read will be served.
    pub closed spec fn replay_cursor(&self) -> Option<int> {
        match self.cursor_pos {
            Some(c) => Some(c as int),
            None => None,
        }
    }

    /// Whether bytes obtained from the source are being recorded.
    pub closed spec fn is_recording(&self) -> bool {
        self.recording
    }

    /// The wrapped source.
    pub closed spec fn source_view(&self) -> S {
        self.source
    }

    /// Whether the replay cursor is set and within the recording's bounds,
    /// so that the next read serves bytes from the buffer.
    pub open spec fn replay_active(&self) -> bool {
        self.replay_cursor() matches Some(c) && c < self.recording_buffer().len()
    }

    /// How many bytes a read of `max` serves from the recording.
    pub open spec fn replay_count(&self, max: int) -> int {
        if self.replay_active() {
            vstd::math::min(max, self.recording_buffer().len() - self.replay_cursor()->Some_0)
        } else {
            0
        }
    }

    /// The bytes a read of `max` serves from the recording.
    pub open spec fn replay_bytes(&self, max: int) -> Seq<u8> {
        if self.replay_active() {
            let c = self.replay_cursor()->Some_0;
            self.recording_buffer().subrange(c, c + self.replay_count(max))
        } else {
            Seq::empty()
        }
    }

    /// Where the replay cursor stands after serving the replay part of a
    /// read of `max`.
    pub open spec fn cursor_after_replay(&self, max: int) -> Option<int> {
        match self.replay_cursor() {
            Some(c) => Some(c + self.replay_count(max)),
            None => None,
        }
    }

    /// The full transition of a successful `read`: `bytes` opens with the
    /// replayed part, the rest came fresh from the source — each source byte
    /// delivered exactly once, and none at all when the replay alone
    /// satisfied the request. Fresh bytes are appended to the recording while
    /// recording is on; with recording off, the first fresh byte after a
    /// replay has run past the recording's end releases the buffer.
    pub open spec fn read_ok(pre: Self, post: Self, max: int, bytes: Seq<u8>) -> bool {
        let k = pre.replay_count(max);
        let fresh = bytes.skip(k);
        let cur = pre.cursor_after_replay(max);
        &&& bytes.len() <= max
        &&& k <= bytes.len()
        &&& bytes.take(k) == pre.replay_bytes(max)
        &&& post.source_view().delivered() == pre.source_view().delivered() + fresh
        &&& (k == max ==> post.source_view() == pre.source_view())
        &&& post.is_recording() == pre.is_recording()
        &&& post.delivered() == pre.delivered() + bytes
        &&& if pre.is_recording() {
            &&& post.recording_buffer() == pre.recording_buffer() + fresh
            &&& post.replay_cursor() == cur
        } else if fresh.len() > 0 && (cur matches Some(c) && c >= pre.recording_buffer().len()) {
            &&& post.recording_buffer() == Seq::<u8>::empty()
            &&& post.replay_cursor() is None
        } else {
            &&& post.recording_buffer() == pre.recording_buffer()
            &&& post.replay_cursor() == cur
        }
    }

    /// The transition of a failed `read`: the source failed after the replay
    /// part was already served, so the cursor has advanced past it, but the
    /// recording and the source's history are unchanged.
    pub open spec fn read_err(pre: Self, post: Self, max: int) -> bool {
        &&& post.recording_buffer() == pre.recording_buffer()
        &&& post.is_recording() == pre.is_recording()
        &&& post.replay_cursor() == pre.cursor_after_replay(max)
        &&& post.source_view().delivered() == pre.source_view().delivered()
        &&& post.delivered() == pre.delivered()
    }

    /// Makes a new `ReadRecorder` wrapping the given source: not recording,
    /// not replaying, with an empty recording buffer.
    pub fn new(source: S) -> (r: Self)
        ensures
            r.source_view() == source,
            r.recording_buffer() == Seq::<u8>::empty(),
            r.replay_cursor() is None,
            !r.is_recording(),
            r.delivered() == Seq::<u8>::empty(),
    {
        Self {
            source,
            recorded_data: Vec::new(),
            cursor_pos: None,
            recording: false,
            served: Ghost(Seq::empty()),
        }
    }

    /// Begins recording: from now on, bytes obtained from the underlying
    /// source are appended to the recording buffer. Nothing already recorded
    /// is discarded.
    pub fn start_recording(&mut self)
        ensures
            final(self).is_recording(),
            final(self).recording_buffer() == old(self).recording_buffer(),
            final(self).replay_cursor() == old(self).replay_cursor(),
            final(self).source_view() == old(self).source_view(),
            final(self).delivered() == old(self).delivered(),
    {
        self.recording = true;
    }

    /// Stops further reads from being recorded. Nothing already recorded is
    /// discarded.
    pub fn stop_recording(&mut self)
        ensures
            !final(self).is_recording(),
            final(self).recording_buffer() == old(self).recording_buffer(),
            final(self).replay_cursor() == old(self).replay_cursor(),
            final(self).source_view() == old(self).source_view(),
            final(self).delivered() == old(self).delivered(),
    {
        self.recording = false;
    }

    /// Sets the replay cursor to the start of the recorded data, so that
    /// subsequent reads re-deliver it before touching the source. Valid even
    /// while the recording is empty: the replay then serves zero bytes.
    pub fn rewind_to_start_of_recording(&mut self)
        ensures
            final(self).replay_cursor() == Some(0int),
            final(self).recording_buffer() == old(self).recording_buffer(),
            final(self).is_recording() == old(self).is_recording(),
            final(self).source_view() == old(self).source_view(),
            final(self).delivered() == old(self).delivered(),
    {
        self.cursor_pos = Some(0);
    }

    /// Copies as much as possible, up to `max` bytes, from the recorded data
    /// at the replay cursor, advancing the cursor by the amount served.
    fn copy_from_recording(&mut self, max: usize) -> (out: Vec<u8>)
        ensures
            out@ == old(self).replay_bytes(max as int),
            final(self).replay_cursor() == old(self).cursor_after_replay(max as int),
            final(self).recording_buffer() == old(self).recording_buffer(),
            final(self).is_recording() == old(self).is_recording(),
            final(self).source_view() == old(self).source_view(),
            final(self).delivered() == old(self).delivered(),
    {
        let c = match self.cursor_pos {
            None => {
                return Vec::new();
            },
            Some(c) => c,
        };
        if c >= self.recorded_data.len() {
            return Vec::new();
        }
        let remaining = self.recorded_data.len() - c;
        let k = if max < remaining {
            max
        } else {
            remaining
        };
        let mut out: Vec<u8> = Vec::new();
        let mut j: usize = 0;
        while j < k
            invariant
                j <= k,
                c + k <= self.recorded_data.len(),
                out@ == self.recorded_data@.subrange(c as int, c + j),
            decreases k - j,
        {
            out.push(self.recorded_data[c + j]);
            proof {
                assert(out@ =~= self.recorded_data@.subrange(c as int, c + j + 1));
            }
            j += 1;
        }
        self.cursor_pos = Some(c + k);
        out
    }

    /// Whether the replay cursor is set and at or past the recording's end.
    fn cursor_out_of_recording_bounds(&self) -> (r: bool)
        ensures
            r == (self.replay_cursor() matches Some(c) && c >= self.recording_buffer().len()),
    {
        match self.cursor_pos {
            None => false,
            Some(cursor_pos) => cursor_pos >= self.recorded_data.len(),
        }
    }

    /// Whether a read that obtained `num_bytes_read_from_source` fresh bytes
    /// must now drop the recording: only once the replay has run past the
    /// recording's end AND new bytes actually flowed. The second condition
    /// keeps "replay exactly to the end, then try again" from destroying the
    /// recording.
    fn should_clear_recorded_data(&self, num_bytes_read_from_source: usize) -> (r: bool)
        ensures
            r == (num_bytes_read_from_source > 0 && (self.replay_cursor() matches Some(c) && c
                >= self.recording_buffer().len())),
    {
        num_bytes_read_from_source > 0 && self.cursor_out_of_recording_bounds()
    }

    /// Drops the recorded data, releasing its storage, and clears the replay
    /// cursor.
    fn drop_recorded_data(&mut self)
        ensures
            final(self).recording_buffer() == Seq::<u8>::empty(),
            final(self).replay_cursor() is None,
            final(self).is_recording() == old(self).is_recording(),
            final(self).source_view() == old(self).source_view(),
            final(self).delivered() == old(self).delivered(),
    {
        self.recorded_data = Vec::new();
        self.cursor_pos = None;
    }
}

/// Replay fidelity: a successful read of exactly the recording's length from
/// a recorder whose cursor stands at the recording's start returns exactly
/// the recorded bytes, and the underlying source is not touched at all.
pub proof fn lemma_replay_fidelity<S: ByteSource>(
    pre: ReadRecorder<S>,
    post: ReadRecorder<S>,
    bytes: Seq<u8>,
)
    requires
        pre.replay_cursor() == Some(0int),
        ReadRecorder::read_ok(pre, post, pre.recording_buffer().len() as int, bytes),
    ensures
        bytes == pre.recording_buffer(),
        post.source_view() == pre.source_view(),
{
    let n = pre.recording_buffer().len() as int;
    assert(pre.replay_count(n) == n);
    assert(bytes.len() == n);
    assert(bytes =~= bytes.take(n));
    if n > 0 {
        assert(pre.replay_bytes(n) =~= pre.recording_buffer());
    } else {
        assert(bytes =~= pre.recording_buffer());
    }
}

/// Single consumption: across any successful read, the source's history of
/// handed-out bytes only grows, it grows by exactly the part of the result
/// that the recording could not serve, and the rest of the result came from
/// the recording — so no byte is ever fetched from the source twice, however
/// often the caller rewinds and re-reads.
pub proof fn lemma_single_consumption<S: ByteSource>(
    pre: ReadRecorder<S>,
    post: ReadRecorder<S>,
    max: int,
    bytes: Seq<u8>,
)
    requires
        ReadRecorder::read_ok(pre, post, max, bytes),
    ensures
        post.source_view().delivered().take(pre.source_view().delivered().len() as int)
            == pre.source_view().delivered(),
        post.source_view().delivered() == pre.source_view().delivered() + bytes.skip(
            pre.replay_count(max),
        ),
        bytes.take(pre.replay_count(max)) == pre.replay_bytes(max),
{
    assert(post.source_view().delivered().take(pre.source_view().delivered().len() as int)
        =~= pre.source_view().delivered());
}

/// Buffer release: when a read with recording off obtains at least one new
/// byte from the source after the replay cursor has run to or past the
/// recording's end, the recorder drops the whole recording and clears the
/// cursor — it holds no residual buffered bytes.
pub proof fn lemma_buffer_release<S: ByteSource>(
    pre: ReadRecorder<S>,
    post: ReadRecorder<S>,
    max: int,
    bytes: Seq<u8>,
)
    requires
        ReadRecorder::read_ok(pre, post, max, bytes),
        !pre.is_recording(),
        pre.cursor_after_replay(max) matches Some(c) && c >= pre.recording_buffer().len(),
        bytes.len() > pre.replay_count(max),
    ensures
        post.recording_buffer() == Seq::<u8>::empty(),
        post.replay_cursor() is None,
{
    assert(bytes.skip(pre.replay_count(max)).len() > 0);
}

impl<S: ByteSource> ByteSource for ReadRecorder<S> {
    /// All bytes handed out to this recorder's caller so far.
    closed spec fn delivered(&self) -> Seq<u8> {
        self.served@
    }

    /// Serves first from the recording at the replay cursor, then from the
    /// underlying source for any remaining capacity; see
    /// [`ReadRecorder::read_ok`] for the exact transition. A request the
    /// recording can satisfy in full succeeds outright: the source is not
    /// touched, and no byte it has delivered is ever requested from it
    /// again.
    fn read(&mut self, max: usize) -> (r: Result<Vec<u8>, SourceError>)
        ensures
            old(self).replay_count(max as int) == max as int ==> r is Ok,
            match r {
                Ok(bytes) => Self::read_ok(*old(self), *final(self), max as int, bytes@),
                Err(_) => Self::read_err(*old(self), *final(self), max as int),
            },
    {
        let ghost pre = *old(self);
        let replayed = self.copy_from_recording(max);
        if replayed.len() == max {
            self.served = Ghost(self.served@ + replayed@);
            proof {
                assert(replayed@.take(max as int) =~= replayed@);
                assert(replayed@.skip(max as int) =~= Seq::<u8>::empty());
                assert(self.source_view().delivered() =~= pre.source_view().delivered()
                    + replayed@.skip(max as int));
                if pre.is_recording() {
                    assert(self.recording_buffer() =~= pre.recording_buffer() + replayed@.skip(
                        max as int,
                    ));
                }
            }
            return Ok(replayed);
        }
        let want = max - replayed.len();
        let mut fresh = match self.source.read(want) {
            Ok(v) => v,
            Err(e) => {
                return Err(e);
            },
        };
        if self.recording {
            let ghost mid = *self;
            let ghost buf_pre = self.recorded_data@;
            let mut i: usize = 0;
            #[verifier::loop_isolation(false)]
            while i < fresh.len()
                invariant
                    i <= fresh.len(),
                    self.recorded_data@ == buf_pre + fresh@.take(i as int),
                    self.cursor_pos == mid.cursor_pos,
                    self.recording == mid.recording,
                    self.source == mid.source,
                    self.served == mid.served,
                decreases fresh.len() - i,
            {
                self.recorded_data.push(fresh[i]);
                proof {
                    assert(buf_pre + fresh@.take(i as int) + seq![fresh@[i as int]] =~= buf_pre
                        + fresh@.take(i + 1));
                }
                i += 1;
            }
            proof {
                assert(fresh@.take(fresh@.len() as int) =~= fresh@);
            }
        } else if self.should_clear_recorded_data(fresh.len()) {
            self.drop_recorded_data();
        }
        let ghost fresh_view = fresh@;
        let mut out = replayed;
        out.append(&mut fresh);
        self.served = Ghost(self.served@ + out@);
        proof {
            let k = pre.replay_count(max as int);
            assert(out@.take(k) =~= pre.replay_bytes(max as int));
            assert(out@.skip(k) =~= fresh_view);
        }
        Ok(out)
    }
}

} // verus!
