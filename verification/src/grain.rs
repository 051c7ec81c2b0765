//! A grain: a short, windowed read of the clip.
//!
//! A grain reads the clip forward at the clip's own rate and reports, with
//! each sample, the point of its window at which the sample falls. The
//! musical interval of a grain is carried along for the resampler that
//! plays the grain back at another pitch.

use crate::audio_clip::AudioClip;
use crate::audio_clip::AudioClipView;
use crate::envelope::window_at;
use crate::envelope::GrainEnvelope;
use crate::envelope::Taper;
use crate::fraction::Fraction;
use crate::units::clamp_level;
use crate::units::lemma_mul_bound;
use crate::units::time_add;
use crate::units::UNITY;
use vstd::prelude::*;

verus! {

/// The index of the first sample of the frame at the share `position` of a
/// clip of `frames` frames.
pub open spec fn start_index(frames: int, channels: int, position: int) -> int {
    ((frames * clamp_level(position)) / UNITY as int) * channels
}

/// The start index is the first sample of a frame of the clip, or the end
/// of the clip.
pub proof fn lemma_start_index(frames: int, channels: int, position: int)
    requires
        0 <= frames,
        0 < channels,
    ensures
        0 <= start_index(frames, channels, position) <= frames * channels,
        0 <= (frames * clamp_level(position)) / UNITY as int <= frames,
        start_index(frames, channels, position) % channels == 0,
        position <= 0 ==> start_index(frames, channels, position) == 0,
{
    let level = clamp_level(position);
    crate::envelope::lemma_ramp_whole(frames, level, UNITY as int);
    let frame = (frames * level) / UNITY as int;
    assert(0 <= frame * channels <= frames * channels) by (nonlinear_arith)
        requires
            0 <= frame <= frames,
            0 < channels,
    ;
    vstd::arithmetic::div_mod::lemma_mod_multiples_basic(frame, channels);
    if position <= 0 {
        assert(frame * channels == 0) by (nonlinear_arith)
            requires
                frame == 0,
        ;
    }
}

/// A cursor one sample further: it stops only where an index cannot count
/// on.
pub open spec fn moved_on(index: int) -> int {
    if index < usize::MAX {
        index + 1
    } else {
        index
    }
}

/// A read cursor into a clip that hands out the raw samples one by one.
#[derive(Clone, Copy, Debug)]
pub struct GrainInner {
    index: usize,
}

impl View for GrainInner {
    type V = int;

    /// The index of the next sample.
    closed spec fn view(&self) -> int {
        self.index as int
    }
}

impl GrainInner {
    /// A cursor that starts at `start_index`.
    pub fn new(start_index: usize) -> (inner: Self)
        ensures
            inner@ == start_index,
    {
        GrainInner { index: start_index }
    }

    /// The index of the sample that is read next.
    pub fn index(&self) -> (index: usize)
        ensures
            index == self@,
    {
        self.index
    }

    /// The next sample of the clip, or `None` past the end of the clip. The
    /// cursor moves on by one with every call, past the end too, as far as
    /// an index can count.
    pub fn next<I: Copy>(&mut self, clip: &AudioClip<I>) -> (sample: Option<I>)
        ensures
            old(self)@ < clip@.data.len() ==> sample == Some(clip@.data[old(self)@]),
            old(self)@ >= clip@.data.len() ==> sample.is_none(),
            final(self)@ == moved_on(old(self)@),
    {
        let data = clip.data();
        let sample = if self.index < data.len() {
            Some(data[self.index])
        } else {
            None
        };
        if self.index < usize::MAX {
            self.index = self.index + 1;
        }
        sample
    }
}

/// What a grain holds.
pub struct GrainView {
    /// The index of the next sample to read.
    pub index: int,
    /// The window of the grain.
    pub envelope: GrainEnvelope,
    /// The length of the grain, in clip time.
    pub total_duration: int,
    /// The clip time played so far.
    pub elapsed_duration: int,
    /// The clip time of one sample.
    pub duration_per_sample: int,
    /// The sample rate of the clip.
    pub sample_rate: u32,
    /// The channel count of the clip.
    pub channels: u16,
    /// The number of samples in the clip.
    pub clip_samples: int,
    /// The share of the clip at which the grain starts.
    pub start_position: u32,
    /// The musical interval by which the grain is shifted, in semitones.
    pub interval: i32,
    /// The level of the note at the moment it spawned the grain.
    pub amplitude: u32,
}

impl GrainView {
    /// The grain has played its whole length.
    pub open spec fn done(self) -> bool {
        self.elapsed_duration >= self.total_duration
    }

    /// What the grain hands out next from the samples `data`: nothing once it
    /// is done or the clip has ended, else the next sample with the point of
    /// the window reached.
    pub open spec fn yields<I>(self, data: Seq<I>) -> Option<(I, Taper)> {
        if self.done() || self.index >= data.len() {
            None
        } else {
            Some(
                (
                    data[self.index],
                    window_at(
                        self.elapsed_duration,
                        self.total_duration,
                        self.envelope.amount@.value as int,
                        self.envelope.skew@.value as int,
                    ),
                ),
            )
        }
    }

    /// The grain after it was asked for a sample: unchanged once done, else
    /// one sample's time older and one sample further.
    pub open spec fn after_next(self) -> GrainView {
        if self.done() {
            self
        } else {
            GrainView {
                elapsed_duration: time_add(self.elapsed_duration, self.duration_per_sample),
                index: moved_on(self.index),
                ..self
            }
        }
    }

    /// The share of the grain played so far.
    pub open spec fn progress(self) -> int {
        if self.done() {
            UNITY as int
        } else {
            (self.elapsed_duration * UNITY) / self.total_duration
        }
    }

    /// The share of the clip at which the grain reads.
    pub open spec fn position(self) -> int {
        if self.clip_samples <= 0 {
            0
        } else if self.index >= self.clip_samples {
            UNITY as int
        } else {
            (self.index * UNITY) / self.clip_samples
        }
    }
}

/// Where a grain is, for display: both as levels, [`UNITY`] for 1.0.
#[derive(Clone, Copy, Debug, PartialEq, Eq, Structural)]
pub struct GrainDrawData {
    /// The share of the clip at which the grain reads.
    pub current_position: u32,
    /// The share of its own length that the grain has played.
    pub current_progress: u32,
}

/// A finite, windowed read of the clip.
#[derive(Clone, Copy, Debug)]
pub struct Grain {
    inner: GrainInner,
    envelope: GrainEnvelope,
    total_duration: u64,
    elapsed_duration: u64,
    duration_per_sample: u64,
    sample_rate: u32,
    channels: u16,
    clip_samples: usize,
    start_position: u32,
    interval: i32,
    amplitude: u32,
}

impl View for Grain {
    type V = GrainView;

    closed spec fn view(&self) -> GrainView {
        GrainView {
            index: self.inner@,
            envelope: self.envelope,
            total_duration: self.total_duration as int,
            elapsed_duration: self.elapsed_duration as int,
            duration_per_sample: self.duration_per_sample as int,
            sample_rate: self.sample_rate,
            channels: self.channels,
            clip_samples: self.clip_samples as int,
            start_position: self.start_position,
            interval: self.interval,
            amplitude: self.amplitude,
        }
    }
}

impl Grain {
    /// What a new grain on `clip` holds.
    pub open spec fn spec_new<I>(
        clip: AudioClipView<I>,
        start_position: u32,
        length: u64,
        interval: i32,
        amplitude: u32,
        envelope: GrainEnvelope,
    ) -> GrainView {
        GrainView {
            index: start_index(clip.frames(), clip.channels as int, start_position as int),
            envelope,
            total_duration: length as int,
            elapsed_duration: 0,
            duration_per_sample: clip.duration_per_sample(),
            sample_rate: clip.sample_rate,
            channels: clip.channels,
            clip_samples: clip.data.len() as int,
            start_position,
            interval,
            amplitude,
        }
    }

    /// A grain of `length` nanoseconds of `audio_clip` that starts at the
    /// frame at the share `start_position` of the clip.
    pub fn new<I>(
        audio_clip: &AudioClip<I>,
        start_position: u32,
        length: u64,
        interval: i32,
        amplitude: u32,
        envelope: GrainEnvelope,
    ) -> (grain: Grain)
        ensures
            grain@ == Self::spec_new(
                audio_clip@,
                start_position,
                length,
                interval,
                amplitude,
                envelope,
            ),
            grain@.index <= audio_clip@.data.len(),
    {
        let frames = audio_clip.frames();
        let channels = audio_clip.channels();
        let clip_samples = audio_clip.data().len();
        let position: u32 = if start_position > UNITY {
            UNITY
        } else {
            start_position
        };
        proof {
            lemma_start_index(frames as int, channels as int, start_position as int);
            lemma_mul_bound(frames as int, position as int, usize::MAX as int, UNITY as int);
        }
        let frame = ((frames as u128) * (position as u128) / (UNITY as u128)) as usize;
        proof {
            assert(frame * channels <= frames * channels) by (nonlinear_arith)
                requires
                    0 <= frame <= frames,
                    0 < channels,
            ;
            assert(frames * channels == clip_samples);
        }
        let index = frame * (channels as usize);
        Grain {
            inner: GrainInner::new(index),
            envelope,
            total_duration: length,
            elapsed_duration: 0,
            duration_per_sample: audio_clip.duration_per_sample(),
            sample_rate: audio_clip.sample_rate(),
            channels,
            clip_samples,
            start_position,
            interval,
            amplitude,
        }
    }

    /// The next sample of the grain with the point of the window at which it
    /// falls, or `None` once the grain is done or the clip has ended.
    pub fn next<I: Copy>(&mut self, clip: &AudioClip<I>) -> (sample: Option<(I, Taper)>)
        ensures
            sample == old(self)@.yields(clip@.data),
            final(self)@ == old(self)@.after_next(),
    {
        if self.elapsed_duration >= self.total_duration {
            None
        } else {
            let progress = Fraction::new(self.elapsed_duration, self.total_duration).unwrap();
            let factor = self.envelope.amplitude_at(progress);
            let sample = self.inner.next(clip);
            self.elapsed_duration = self.elapsed_duration.saturating_add(self.duration_per_sample);
            match sample {
                Some(s) => Some((s, factor)),
                None => None,
            }
        }
    }

    /// The grain has played its whole length.
    pub fn is_done(&self) -> (done: bool)
        ensures
            done == self@.done(),
    {
        self.elapsed_duration >= self.total_duration
    }

    /// Where the grain is, for display.
    pub fn draw(&self) -> (d: GrainDrawData)
        ensures
            d.current_position == self@.position(),
            d.current_progress == self@.progress(),
    {
        let current_progress = if self.elapsed_duration >= self.total_duration {
            UNITY
        } else {
            proof {
                lemma_mul_bound(
                    self.elapsed_duration as int,
                    UNITY as int,
                    u64::MAX as int,
                    UNITY as int,
                );
                crate::envelope::lemma_phase(
                    self.elapsed_duration as int,
                    self.total_duration as int,
                );
            }
            ((self.elapsed_duration as u128) * (UNITY as u128) / (self.total_duration as u128)) as u32
        };
        let index = self.inner.index;
        let current_position = if self.clip_samples == 0 {
            0
        } else if index >= self.clip_samples {
            UNITY
        } else {
            proof {
                lemma_mul_bound(index as int, UNITY as int, usize::MAX as int, UNITY as int);
                crate::envelope::lemma_phase(index as int, self.clip_samples as int);
            }
            ((index as u128) * (UNITY as u128) / (self.clip_samples as u128)) as u32
        };
        GrainDrawData { current_position, current_progress }
    }

    /// The musical interval by which the grain is shifted, in semitones.
    pub fn interval(&self) -> (i: i32)
        ensures
            i == self@.interval,
    {
        self.interval
    }

    /// The level of the note at the moment it spawned the grain.
    pub fn amplitude(&self) -> (a: u32)
        ensures
            a == self@.amplitude,
    {
        self.amplitude
    }

    /// The channel count of the samples the grain hands out.
    pub fn channels(&self) -> (c: u16)
        ensures
            c == self@.channels,
    {
        self.channels
    }

    /// The sample rate of the samples the grain hands out.
    pub fn sample_rate(&self) -> (r: u32)
        ensures
            r == self@.sample_rate,
    {
        self.sample_rate
    }

    /// The length of the grain, in nanoseconds of clip time.
    pub fn total_duration(&self) -> (ns: u64)
        ensures
            ns == self@.total_duration,
    {
        self.total_duration
    }
}

/// A grain never reads past the end of the clip: what it hands out is the
/// sample under its cursor, and past the end it hands out nothing. Every
/// call short of its end makes it older by the time of one sample, short
/// of the largest time, and moves its cursor on.
pub proof fn law_grain_stays_inside<I>(grain: GrainView, data: Seq<I>)
    requires
        0 <= grain.index,
        0 <= grain.elapsed_duration <= u64::MAX,
        0 <= grain.duration_per_sample,
    ensures
        grain.yields(data) matches Some(out) ==> grain.index < data.len() && out.0
            == data[grain.index],
        grain.index >= data.len() ==> grain.yields(data).is_none(),
        grain.done() ==> grain.yields(data).is_none() && grain.after_next() == grain,
        !grain.done() ==> grain.after_next().elapsed_duration == time_add(
            grain.elapsed_duration,
            grain.duration_per_sample,
        ),
        !grain.done() ==> grain.after_next().index == moved_on(grain.index),
        grain.after_next().elapsed_duration >= grain.elapsed_duration,
        grain.after_next().index >= grain.index,
{
}

impl GrainView {
    /// The grain after it was asked for a sample `times` times.
    pub open spec fn after_nexts(self, times: nat) -> GrainView
        decreases times,
    {
        if times == 0 {
            self
        } else {
            self.after_nexts((times - 1) as nat).after_next()
        }
    }
}

/// The course of a grain: as long as it has not reached its end, after
/// `times` samples it is that many samples' time older and that many
/// samples further, and is else as it was.
pub proof fn law_grain_course(grain: GrainView, times: nat)
    requires
        0 <= grain.index,
        grain.index + times <= usize::MAX,
        0 <= grain.elapsed_duration <= u64::MAX,
        0 <= grain.duration_per_sample,
        grain.total_duration <= u64::MAX,
        times >= 1 ==> grain.elapsed_duration + (times - 1) * grain.duration_per_sample
            < grain.total_duration,
    ensures
        grain.after_nexts(times) == (GrainView {
            elapsed_duration: time_add(
                grain.elapsed_duration,
                times * grain.duration_per_sample,
            ),
            index: grain.index + times,
            ..grain
        }),
    decreases times,
{
    let step = grain.duration_per_sample;
    if times == 0 {
        assert(times * step == 0) by (nonlinear_arith)
            requires
                times == 0,
        ;
    } else {
        let before = (times - 1) as nat;
        assert(before * step + step == times * step && 0 <= before * step) by (nonlinear_arith)
            requires
                before == times - 1,
                step >= 0,
                before >= 0,
        ;
        if before >= 1 {
            assert((before - 1) * step <= before * step) by (nonlinear_arith)
                requires
                    step >= 0,
            ;
        }
        law_grain_course(grain, before);
    }
}

/// A grain ends: once the samples asked for add up to its length it is
/// done, and it stays done.
pub proof fn law_grain_ends(grain: GrainView, times: nat)
    requires
        0 <= grain.elapsed_duration,
        0 <= grain.duration_per_sample,
        grain.total_duration <= u64::MAX,
        grain.elapsed_duration + times * grain.duration_per_sample >= grain.total_duration,
    ensures
        grain.after_nexts(times).done(),
        grain.after_nexts(times).total_duration == grain.total_duration,
{
    lemma_grain_ages(grain, times);
}

/// After `times` samples a grain is done, or is that many samples' time
/// older.
pub proof fn lemma_grain_ages(grain: GrainView, times: nat)
    requires
        0 <= grain.elapsed_duration,
        0 <= grain.duration_per_sample,
        grain.total_duration <= u64::MAX,
    ensures
        grain.after_nexts(times).total_duration == grain.total_duration,
        grain.after_nexts(times).duration_per_sample == grain.duration_per_sample,
        grain.after_nexts(times).done() || grain.after_nexts(times).elapsed_duration
            == grain.elapsed_duration + times * grain.duration_per_sample,
    decreases times,
{
    if times > 0 {
        let before = (times - 1) as nat;
        lemma_grain_ages(grain, before);
        assert(grain.elapsed_duration + before * grain.duration_per_sample
            + grain.duration_per_sample == grain.elapsed_duration + times
            * grain.duration_per_sample) by (nonlinear_arith)
            requires
                before == times - 1,
        ;
    }
}

} // verus!
