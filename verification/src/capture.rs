use vstd::prelude::*;
use crate::audio_clip::{channel0, AudioClip, ClipModel};

verus! {

/// The shared capture buffer: a single slot holding either the in-progress
/// clip or nothing.
///
/// During capture exactly one producer (the audio device's callback)
/// appends into the slot and one consumer extracts the finished clip once,
/// emptying the slot irreversibly.  The producer only ever reaches the slot
/// through a non-blocking try-acquire of the surrounding lock; the outcome
/// of that attempt comes in as `acquired`, and on contention the delivered
/// batch is dropped rather than stalling the real-time audio thread.
pub struct CaptureBuffer {
    slot: Option<AudioClip>,
}

impl View for CaptureBuffer {
    type V = Option<ClipModel>;

    closed spec fn view(&self) -> Option<ClipModel> {
        match self.slot {
            Some(clip) => Some(clip@),
            None => None,
        }
    }
}

impl CaptureBuffer {
    /// A buffer is well formed while the clip it holds is.
    pub open spec fn wf(&self) -> bool {
        self@ matches Some(clip) ==> clip.sample_rate > 0
    }

    /// Opens a capture buffer holding an empty clip at the stream's rate.
    pub fn new(sample_rate: u32) -> (buffer: CaptureBuffer)
        requires
            0 < sample_rate,
        ensures
            buffer@ matches Some(clip) && clip.samples == Seq::<u32>::empty()
                && clip.sample_rate == sample_rate,
            buffer.wf(),
    {
        CaptureBuffer { slot: Some(AudioClip::new(Vec::new(), sample_rate)) }
    }

    /// One producer delivery: `acquired` reports whether the non-blocking
    /// try-acquire of the buffer lock succeeded.  On contention, or once
    /// the clip has been taken, the batch is dropped and the buffer is
    /// untouched — the producer never blocks and never loses the clip —
    /// otherwise channel 0 of every delivered frame is appended.
    pub fn ingest(&mut self, acquired: bool, interleaved: &Vec<u32>, channels: usize)
        requires
            0 < channels,
            interleaved@.len() + channels <= usize::MAX,
        ensures
            !acquired ==> final(self)@ == old(self)@,
            old(self)@ is None ==> final(self)@ == old(self)@,
            acquired ==> (old(self)@ matches Some(clip) ==> (final(self)@ matches Some(grown)
                && grown.samples == clip.samples + channel0(interleaved@, channels as int)
                && grown.sample_rate == clip.sample_rate)),
            old(self).wf() ==> final(self).wf(),
    {
        if !acquired {
            return;
        }
        let taken = self.slot.take();
        match taken {
            None => {},
            Some(mut clip) => {
                clip.append_frames(interleaved, channels);
                self.slot = Some(clip);
            },
        }
    }

    /// Extracts the finished clip and leaves the buffer empty: ownership
    /// transfers fully to the caller, and the session counts as closed from
    /// here on.
    pub fn take(&mut self) -> (clip: Option<AudioClip>)
        ensures
            final(self)@ is None,
            old(self)@ matches Some(model) ==> clip matches Some(taken) && taken@ == model,
            old(self)@ is None ==> clip is None,
    {
        self.slot.take()
    }
}

} // verus!
