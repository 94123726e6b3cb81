//! The buffers of an always-running microphone recorder: a bounded pre-roll of
//! the most recent audio while idle, and the whole recording while a session
//! runs.
use vstd::prelude::*;
use std::collections::VecDeque;
use crate::error::AppError;

verus! {

broadcast use vstd::std_specs::vecdeque::group_vec_dequeue_axioms;

/// Bytes of 16 kHz, mono, 16-bit PCM per millisecond.
pub const BYTES_PER_MS: usize = 32;

/// The last `cap` elements of `s` (all of `s` when it is shorter).
pub open spec fn keep_last(s: Seq<u8>, cap: nat) -> Seq<u8> {
    if s.len() > cap {
        s.subrange(s.len() - cap, s.len() as int)
    } else {
        s
    }
}

/// The abstract state of a recorder.
pub struct RecorderView {
    /// Most recent idle audio, oldest first.
    pub ring: Seq<u8>,
    /// Audio of the current (or last unfinished) session.
    pub recorded: Seq<u8>,
    pub recording: bool,
    /// Bound on the pre-roll, in bytes.
    pub capacity: nat,
}

/// Whether the pre-roll respects its bound.
pub open spec fn recorder_wf(v: RecorderView) -> bool {
    v.ring.len() <= v.capacity
}

/// The state after a block of converted audio arrives: appended to the
/// recording during a session, otherwise to the pre-roll, of which only the
/// last `capacity` bytes are kept.
pub open spec fn push_spec(v: RecorderView, pcm: Seq<u8>) -> RecorderView {
    if v.recording {
        RecorderView { recorded: v.recorded + pcm, ..v }
    } else {
        RecorderView { ring: keep_last(v.ring + pcm, v.capacity), ..v }
    }
}

/// The state after a session starts: the pre-roll becomes the start of the
/// recording.
pub open spec fn start_spec(v: RecorderView) -> RecorderView {
    RecorderView { ring: Seq::empty(), recorded: v.ring, recording: true, ..v }
}

/// The state after a session stops, and the audio it hands over.
pub open spec fn stop_spec(v: RecorderView) -> (RecorderView, Seq<u8>) {
    (RecorderView { recorded: Seq::empty(), recording: false, ..v }, v.recorded)
}

/// The state after `chunks` arrive one after another.
pub open spec fn push_all_spec(v: RecorderView, chunks: Seq<Seq<u8>>) -> RecorderView
    decreases chunks.len(),
{
    if chunks.len() == 0 {
        v
    } else {
        push_spec(push_all_spec(v, chunks.drop_last()), chunks.last())
    }
}

/// All of `chunks`, one after another.
pub open spec fn concat_all(chunks: Seq<Seq<u8>>) -> Seq<u8>
    decreases chunks.len(),
{
    if chunks.len() == 0 {
        Seq::empty()
    } else {
        concat_all(chunks.drop_last()) + chunks.last()
    }
}

/// A recorder whose input stream runs all the time. While idle it keeps the
/// most recent audio as pre-roll; a session starts with that pre-roll and
/// collects everything that arrives until it stops.
pub struct PersistentRecorder {
    ring_buffer: VecDeque<u8>,
    recording_buffer: Vec<u8>,
    recording: bool,
    ring_buffer_capacity: usize,
}

impl View for PersistentRecorder {
    type V = RecorderView;

    closed spec fn view(&self) -> RecorderView {
        RecorderView {
            ring: self.ring_buffer@,
            recorded: self.recording_buffer@,
            recording: self.recording,
            capacity: self.ring_buffer_capacity as nat,
        }
    }
}

impl PersistentRecorder {
    /// An idle recorder with empty buffers whose pre-roll holds the last
    /// `pre_roll_ms` milliseconds of audio.
    pub fn new(pre_roll_ms: u64) -> (res: Result<Self, AppError>)
        requires
            (pre_roll_ms as usize) * BYTES_PER_MS <= usize::MAX,
        ensures
            res matches Ok(r) && r@ == (RecorderView {
                ring: Seq::empty(),
                recorded: Seq::empty(),
                recording: false,
                capacity: ((pre_roll_ms as usize) * BYTES_PER_MS) as nat,
            }),
    {
        let ring_buffer_capacity = (pre_roll_ms as usize) * BYTES_PER_MS;
        Ok(PersistentRecorder {
            ring_buffer: VecDeque::with_capacity(ring_buffer_capacity),
            recording_buffer: Vec::new(),
            recording: false,
            ring_buffer_capacity,
        })
    }

    /// Whether a session is running.
    pub fn is_recording(&self) -> (res: bool)
        ensures
            res == self@.recording,
    {
        self.recording
    }

    /// Takes in a block of converted audio.
    pub fn push_audio(&mut self, pcm: &[u8])
        requires
            recorder_wf(old(self)@),
        ensures
            final(self)@ == push_spec(old(self)@, pcm@),
            recorder_wf(final(self)@),
    {
        if self.recording {
            self.recording_buffer.extend_from_slice(pcm);
            assert(self.recording_buffer@ =~= old(self)@.recorded + pcm@);
            return;
        }
        let ghost start = self.ring_buffer@;
        let mut i: usize = 0;
        while i < pcm.len()
            invariant
                i <= pcm@.len(),
                self.ring_buffer@ == start + pcm@.take(i as int),
                self.recording_buffer@ == old(self)@.recorded,
                self.recording == old(self)@.recording,
                self.ring_buffer_capacity == old(self)@.capacity,
            decreases pcm@.len() - i,
        {
            self.ring_buffer.push_back(pcm[i]);
            i = i + 1;
            assert(self.ring_buffer@ =~= start + pcm@.take(i as int));
        }
        let ghost full = start + pcm@;
        assert(pcm@.take(i as int) =~= pcm@);
        let ghost mut dropped: int = 0;
        while self.ring_buffer.len() > self.ring_buffer_capacity
            invariant
                0 <= dropped <= full.len(),
                self.ring_buffer@ == full.subrange(dropped, full.len() as int),
                self.recording_buffer@ == old(self)@.recorded,
                self.recording == old(self)@.recording,
                self.ring_buffer_capacity == old(self)@.capacity,
                dropped > 0 ==> full.len() - dropped >= self.ring_buffer_capacity,
            decreases full.len() - dropped,
        {
            self.ring_buffer.pop_front();
            proof {
                dropped = dropped + 1;
            }
            assert(self.ring_buffer@ =~= full.subrange(dropped, full.len() as int));
        }
        assert(self.ring_buffer@ =~= keep_last(full, self.ring_buffer_capacity as nat));
    }

    /// Starts a session: the pre-roll becomes the beginning of the recording.
    pub fn start_recording(&mut self)
        requires
            recorder_wf(old(self)@),
        ensures
            final(self)@ == start_spec(old(self)@),
            recorder_wf(final(self)@),
    {
        self.recording_buffer.clear();
        let ghost pre_roll = self.ring_buffer@;
        let ghost mut taken: int = 0;
        while self.ring_buffer.len() > 0
            invariant
                0 <= taken <= pre_roll.len(),
                self.ring_buffer@ == pre_roll.subrange(taken, pre_roll.len() as int),
                self.recording_buffer@ == pre_roll.take(taken),
                self.recording == old(self)@.recording,
                self.ring_buffer_capacity == old(self)@.capacity,
            decreases pre_roll.len() - taken,
        {
            let b = self.ring_buffer.pop_front().unwrap();
            self.recording_buffer.push(b);
            proof {
                taken = taken + 1;
            }
            assert(self.recording_buffer@ =~= pre_roll.take(taken));
            assert(self.ring_buffer@ =~= pre_roll.subrange(taken, pre_roll.len() as int));
        }
        assert(pre_roll.take(taken) =~= pre_roll);
        assert(self.ring_buffer@ =~= Seq::<u8>::empty());
        self.recording = true;
    }

    /// Stops the session and hands over everything it recorded.
    pub fn stop_recording(&mut self) -> (pcm_data: Vec<u8>)
        requires
            recorder_wf(old(self)@),
        ensures
            (final(self)@, pcm_data@) == stop_spec(old(self)@),
            recorder_wf(final(self)@),
    {
        self.recording = false;
        let mut taken: Vec<u8> = Vec::new();
        std::mem::swap(&mut taken, &mut self.recording_buffer);
        taken
    }
}

proof fn lemma_keep_last_twice(a: Seq<u8>, b: Seq<u8>, cap: nat)
    ensures
        keep_last(keep_last(a, cap) + b, cap) == keep_last(a + b, cap),
{
    let ka = keep_last(a, cap);
    assert(keep_last(ka + b, cap) =~= keep_last(a + b, cap));
}

/// While idle, the pre-roll is exactly the most recent audio: after any
/// blocks arrive, it holds the last `capacity` bytes of what it held before
/// followed by those blocks.
pub proof fn lemma_pre_roll_is_recent_audio(v: RecorderView, chunks: Seq<Seq<u8>>)
    requires
        !v.recording,
        recorder_wf(v),
    ensures
        push_all_spec(v, chunks).ring == keep_last(v.ring + concat_all(chunks), v.capacity),
        !push_all_spec(v, chunks).recording,
        push_all_spec(v, chunks).recorded == v.recorded,
        push_all_spec(v, chunks).capacity == v.capacity,
    decreases chunks.len(),
{
    if chunks.len() == 0 {
        assert(v.ring + Seq::<u8>::empty() =~= v.ring);
    } else {
        lemma_pre_roll_is_recent_audio(v, chunks.drop_last());
        let w = push_all_spec(v, chunks.drop_last());
        lemma_keep_last_twice(v.ring + concat_all(chunks.drop_last()), chunks.last(), v.capacity);
        assert(v.ring + concat_all(chunks.drop_last()) + chunks.last() =~= v.ring + concat_all(
            chunks,
        ));
    }
}

proof fn lemma_pushes_while_recording(w: RecorderView, chunks: Seq<Seq<u8>>)
    requires
        w.recording,
    ensures
        push_all_spec(w, chunks) == (RecorderView { recorded: w.recorded + concat_all(chunks), ..w }),
    decreases chunks.len(),
{
    if chunks.len() == 0 {
        assert(w.recorded + Seq::<u8>::empty() =~= w.recorded);
    } else {
        lemma_pushes_while_recording(w, chunks.drop_last());
        assert(w.recorded + concat_all(chunks.drop_last()) + chunks.last() =~= w.recorded
            + concat_all(chunks));
    }
}

/// A session hands over the pre-roll it started with followed by every block
/// that arrived while it ran, and leaves the recorder idle with an empty
/// pre-roll.
pub proof fn lemma_session_audio(v: RecorderView, chunks: Seq<Seq<u8>>)
    ensures
        ({
            let (after, pcm) = stop_spec(push_all_spec(start_spec(v), chunks));
            &&& pcm == v.ring + concat_all(chunks)
            &&& !after.recording
            &&& after.ring == Seq::<u8>::empty()
            &&& after.recorded == Seq::<u8>::empty()
            &&& after.capacity == v.capacity
        }),
{
    lemma_pushes_while_recording(start_spec(v), chunks);
}

/// Every operation keeps the pre-roll within its bound.
pub proof fn lemma_recorder_wf_preserved(v: RecorderView, pcm: Seq<u8>)
    requires
        recorder_wf(v),
    ensures
        recorder_wf(push_spec(v, pcm)),
        recorder_wf(start_spec(v)),
        recorder_wf(stop_spec(v).0),
{
}

} // verus!
