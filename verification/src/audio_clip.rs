use vstd::prelude::*;
use vstd::arithmetic::div_mod::{
    lemma_basic_div, lemma_div_is_ordered, lemma_div_multiples_vanish,
    lemma_div_multiples_vanish_fancy,
};
use vstd::arithmetic::mul::{
    lemma_mul_inequality, lemma_mul_is_commutative, lemma_mul_is_distributive_add_other_way,
    lemma_mul_is_distributive_sub_other_way,
};
use crate::error::AudioError;
use crate::pcm::{narrow_sample, pcm_of};
use crate::wav::{exported_wav, has_wav_suffix, hound_wav_bytes, wav_path_ok};

verus! {

/// The mathematical model of a clip: the sample bit patterns in temporal
/// order, and the rate they belong to.
pub ghost struct ClipModel {
    pub samples: Seq<u32>,
    pub sample_rate: u32,
}

/// One mono audio clip: an ordered sequence of samples at a fixed rate.
///
/// Each element of `samples` is the bit pattern of one 32-bit float sample,
/// nominally in [-1.0, 1.0]; insertion order is temporal order.
pub struct AudioClip {
    samples: Vec<u32>,
    sample_rate: u32,
}

impl View for AudioClip {
    type V = ClipModel;

    closed spec fn view(&self) -> ClipModel {
        ClipModel { samples: self.samples@, sample_rate: self.sample_rate }
    }
}

/// The length policy of resampling: `n` samples at `source_rate` become
/// exactly `floor(n * target_rate / source_rate)` samples at `target_rate`.
pub open spec fn resampled_len(n: int, source_rate: int, target_rate: int) -> int
    recommends
        0 < source_rate,
{
    n * target_rate / source_rate
}

/// The frames of `converted`, cut or zero-filled to exactly `n`: frame `i`
/// keeps its value where it exists and is the zero (equilibrium) sample
/// otherwise.
pub open spec fn fit_frames(converted: Seq<u32>, n: int) -> Seq<u32>
    recommends
        0 <= n,
{
    Seq::new(n as nat, |i: int| if i < converted.len() { converted[i] } else { 0u32 })
}

/// Frames per interleaved batch: the sample count divided by the channel
/// count, rounded up (a trailing partial frame still counts).
pub open spec fn frame_count(len: int, channels: int) -> int
    recommends
        0 < channels,
{
    (len + channels - 1) / channels
}

/// Channel 0 of each frame of an interleaved batch: the samples at indices
/// 0, channels, 2 * channels, and so on.
pub open spec fn channel0(interleaved: Seq<u32>, channels: int) -> Seq<u32>
    recommends
        0 < channels,
{
    Seq::new(
        frame_count(interleaved.len() as int, channels) as nat,
        |i: int| interleaved[i * channels],
    )
}

impl AudioClip {
    /// A clip is well formed when its rate is a positive number of samples
    /// per second.
    pub open spec fn wf(&self) -> bool {
        self@.sample_rate > 0
    }

    /// Builds a clip from raw sample bit patterns at the given rate.
    pub fn new(samples: Vec<u32>, sample_rate: u32) -> (clip: AudioClip)
        requires
            sample_rate > 0,
        ensures
            clip@.samples == samples@,
            clip@.sample_rate == sample_rate,
            clip.wf(),
    {
        AudioClip { samples, sample_rate }
    }

    /// The sample bit patterns, in temporal order.
    pub fn samples(&self) -> (samples: &Vec<u32>)
        ensures
            samples@ == self@.samples,
    {
        &self.samples
    }

    /// The rate of the clip, in samples per second.
    pub fn sample_rate(&self) -> (rate: u32)
        ensures
            rate == self@.sample_rate,
    {
        self.sample_rate
    }

    /// The number of samples that resampling this clip to `target_rate`
    /// yields, and so the number of frames to request from a rate converter.
    pub fn conversion_len(&self, target_rate: u32) -> (n: usize)
        requires
            self.wf(),
            0 < target_rate,
            self@.samples.len() * target_rate <= usize::MAX,
        ensures
            n == resampled_len(
                self@.samples.len() as int,
                self@.sample_rate as int,
                target_rate as int,
            ),
    {
        (self.samples.len() * (target_rate as usize)) / (self.sample_rate as usize)
    }

    /// Resamples the clip to `target_rate`.
    ///
    /// When the target rate equals the clip's rate the result is a
    /// value-equal copy and `converted` is ignored.  Otherwise `converted`
    /// holds the frames that a linear-interpolation rate converter yielded
    /// for this clip's samples (floating-point work that lives outside the
    /// library), and the result holds exactly the number of frames the
    /// length policy fixes: surplus frames are dropped and missing frames
    /// zero-filled, so the policy holds whatever the converter handed back.
    /// The input clip is never modified.
    pub fn resample(&self, target_rate: u32, converted: &Vec<u32>) -> (resampled: AudioClip)
        requires
            self.wf(),
            0 < target_rate,
            self@.samples.len() * target_rate <= usize::MAX,
        ensures
            resampled.wf(),
            resampled@.sample_rate == target_rate,
            resampled@.samples.len() == resampled_len(
                self@.samples.len() as int,
                self@.sample_rate as int,
                target_rate as int,
            ),
            target_rate == self@.sample_rate ==> resampled@.samples == self@.samples,
            target_rate != self@.sample_rate ==> resampled@.samples == fit_frames(
                converted@,
                resampled_len(
                    self@.samples.len() as int,
                    self@.sample_rate as int,
                    target_rate as int,
                ),
            ),
    {
        let n = self.conversion_len(target_rate);
        if target_rate == self.sample_rate {
            proof {
                lemma_mul_is_commutative(self@.samples.len() as int, target_rate as int);
                lemma_div_multiples_vanish(self@.samples.len() as int, target_rate as int);
            }
            let out = copy_frames(&self.samples);
            AudioClip { samples: out, sample_rate: target_rate }
        } else {
            let ghost want = fit_frames(converted@, n as int);
            let mut fitted: Vec<u32> = Vec::new();
            let mut i: usize = 0;
            while i < n
                invariant
                    i <= n,
                    want == fit_frames(converted@, n as int),
                    fitted@ =~= want.take(i as int),
                decreases n - i,
            {
                if i < converted.len() {
                    let frame = converted[i];
                    fitted.push(frame);
                } else {
                    fitted.push(0);
                }
                assert(fitted@ =~= want.take(i as int + 1));
                i += 1;
            }
            assert(fitted@ =~= want);
            AudioClip { samples: fitted, sample_rate: target_rate }
        }
    }

    /// Serializes the clip as a mono, 16-bit signed integer PCM WAV
    /// container and returns the container bytes, which the caller writes
    /// to the named file.
    ///
    /// The path must name a `.wav` file; any other path is rejected with
    /// `InvalidArgument` before any encoding work.  Each sample narrows
    /// from its float bit pattern to a 16-bit integer by truncation, not
    /// rounding or clipping.
    pub fn export(&self, path: &str) -> (exported: Result<Vec<u8>, AudioError>)
        requires
            self.wf(),
            2 * self@.sample_rate <= u32::MAX,
            36 + 2 * self@.samples.len() <= u32::MAX,
        ensures
            (exported == Err::<Vec<u8>, AudioError>(AudioError::InvalidArgument)) <==> !has_wav_suffix(path@),
            has_wav_suffix(path@) ==> exported is Ok,
            exported matches Ok(bytes) ==> bytes@ == exported_wav(self@.samples, self@.sample_rate),
    {
        if !wav_path_ok(path) {
            return Err(AudioError::InvalidArgument);
        }
        let mut data: Vec<i16> = Vec::new();
        let mut i: usize = 0;
        while i < self.samples.len()
            invariant
                i <= self.samples@.len(),
                data@ =~= pcm_of(self.samples@.take(i as int)),
            decreases self.samples@.len() - i,
        {
            let bits = self.samples[i];
            data.push(narrow_sample(bits));
            assert(data@ =~= pcm_of(self.samples@.take(i as int + 1)));
            i += 1;
        }
        assert(self.samples@.take(self.samples@.len() as int) =~= self.samples@);
        match hound_wav_bytes(&data, self.sample_rate) {
            Some(bytes) => Ok(bytes),
            None => Err(AudioError::IoError),
        }
    }

    /// Appends the first channel of every frame of an interleaved batch to
    /// the clip: the explicit mono downmix of the capture path.  The rate
    /// is untouched.
    pub fn append_frames(&mut self, interleaved: &Vec<u32>, channels: usize)
        requires
            0 < channels,
            interleaved@.len() + channels <= usize::MAX,
        ensures
            final(self)@.sample_rate == old(self)@.sample_rate,
            final(self)@.samples == old(self)@.samples + channel0(
                interleaved@,
                channels as int,
            ),
    {
        let ghost orig = self.samples@;
        let ghost picked = channel0(interleaved@, channels as int);
        let mut i: usize = 0;
        let ghost mut k: int = 0;
        while i < interleaved.len()
            invariant
                0 < channels,
                interleaved@.len() + channels <= usize::MAX,
                picked == channel0(interleaved@, channels as int),
                0 <= k,
                i == k * (channels as int),
                k <= frame_count(interleaved@.len() as int, channels as int),
                k > 0 ==> (k - 1) * (channels as int) < interleaved@.len(),
                self.samples@ =~= orig + picked.take(k),
                self.sample_rate == old(self).sample_rate,
            decreases interleaved@.len() + channels - i,
        {
            proof {
                lemma_frame_index_fits(interleaved@.len() as int, channels as int, k);
                assert(picked[k] == interleaved@[k * (channels as int)]);
            }
            let frame0 = interleaved[i];
            self.samples.push(frame0);
            assert(self.samples@ =~= orig + picked.take(k + 1));
            i = i + channels;
            proof {
                k = k + 1;
                lemma_mul_is_distributive_add_other_way(channels as int, k - 1, 1);
            }
        }
        proof {
            lemma_frame_count_at_exit(interleaved@.len() as int, channels as int, k);
            assert(picked.take(k) =~= picked);
        }
    }
}

/// Copies a sample vector, element by element.
fn copy_frames(frames: &Vec<u32>) -> (out: Vec<u32>)
    ensures
        out@ == frames@,
{
    let mut out: Vec<u32> = Vec::new();
    let mut i: usize = 0;
    while i < frames.len()
        invariant
            i <= frames@.len(),
            out@ =~= frames@.take(i as int),
        decreases frames@.len() - i,
    {
        let frame = frames[i];
        out.push(frame);
        i += 1;
    }
    assert(out@ =~= frames@);
    out
}

/// Monotonic rate scaling: converting to a higher rate never decreases the
/// sample count, converting to a lower rate never increases it, and
/// converting to the same rate keeps it.
pub proof fn lemma_resampled_len_monotone(n: int, source_rate: int, target_rate: int)
    requires
        0 <= n,
        0 < source_rate,
        0 < target_rate,
    ensures
        source_rate <= target_rate ==> n <= resampled_len(n, source_rate, target_rate),
        target_rate <= source_rate ==> resampled_len(n, source_rate, target_rate) <= n,
{
    lemma_mul_is_commutative(n, source_rate);
    lemma_mul_is_commutative(n, target_rate);
    lemma_div_multiples_vanish(n, source_rate);
    if source_rate <= target_rate {
        lemma_mul_inequality(source_rate, target_rate, n);
        lemma_div_is_ordered(n * source_rate, n * target_rate, source_rate);
    } else {
        lemma_mul_inequality(target_rate, source_rate, n);
        lemma_div_is_ordered(n * target_rate, n * source_rate, source_rate);
    }
}

/// While another full or partial frame starts below `len`, its index lies
/// below the frame count.
proof fn lemma_frame_index_fits(len: int, channels: int, k: int)
    requires
        0 < channels,
        0 <= k,
        k * channels < len,
    ensures
        k < frame_count(len, channels),
{
    lemma_mul_is_distributive_add_other_way(channels, k, 1);
    lemma_mul_is_commutative(k + 1, channels);
    lemma_div_multiples_vanish(k + 1, channels);
    lemma_div_is_ordered((k + 1) * channels, len + channels - 1, channels);
}

/// Once the walk has passed `len` in steps of `channels`, starting inside
/// the batch on every earlier step, it has taken exactly one step per frame.
proof fn lemma_frame_count_at_exit(len: int, channels: int, k: int)
    requires
        0 < channels,
        0 <= len,
        0 <= k,
        len <= k * channels,
        k > 0 ==> (k - 1) * channels < len,
    ensures
        k == frame_count(len, channels),
{
    if k == 0 {
        lemma_basic_div(len + channels - 1, channels);
    } else {
        lemma_mul_is_commutative(k, channels);
        lemma_div_multiples_vanish_fancy(k, channels - 1, channels);
        lemma_div_is_ordered(len + channels - 1, k * channels + channels - 1, channels);
        lemma_mul_is_distributive_sub_other_way(channels, k, 1);
        lemma_div_multiples_vanish(k, channels);
        lemma_div_is_ordered(k * channels, len + channels - 1, channels);
    }
}

} // verus!
