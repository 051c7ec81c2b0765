//! The recorded clip that grains are cut from.

use crate::units::NANOS_PER_SEC;
use vstd::prelude::*;

verus! {

/// What a clip holds.
pub struct AudioClipView<I> {
    /// The samples, interleaved by channel.
    pub data: Seq<I>,
    /// The number of channels.
    pub channels: u16,
    /// Frames per second.
    pub sample_rate: u32,
}

impl<I> AudioClipView<I> {
    /// The clip has a channel and a rate, and its samples make whole
    /// frames.
    pub open spec fn wf(self) -> bool {
        &&& self.channels > 0
        &&& self.sample_rate > 0
        &&& self.data.len() as int % self.channels as int == 0
    }

    /// The number of frames: samples per channel.
    pub open spec fn frames(self) -> int {
        self.data.len() as int / self.channels as int
    }

    /// The time one sample of one channel stands for, in nanoseconds.
    pub open spec fn duration_per_sample(self) -> int {
        NANOS_PER_SEC as int / (self.sample_rate as int * self.channels as int)
    }

    /// The time one frame stands for, in nanoseconds.
    pub open spec fn frame_duration(self) -> int {
        self.duration_per_sample() * self.channels as int
    }

    /// The time the whole clip stands for, saturating at the largest time.
    pub open spec fn total_duration(self) -> int {
        let exact = self.duration_per_sample() * self.data.len();
        if exact > u64::MAX as int {
            u64::MAX as int
        } else {
            exact
        }
    }
}

/// A decoded recording: interleaved samples with their channel count and
/// sample rate. It cannot be changed once made.
#[derive(Debug)]
pub struct AudioClip<I> {
    data: Vec<I>,
    channels: u16,
    sample_rate: u32,
}

impl<I> View for AudioClip<I> {
    type V = AudioClipView<I>;

    closed spec fn view(&self) -> AudioClipView<I> {
        AudioClipView { data: self.data@, channels: self.channels, sample_rate: self.sample_rate }
    }
}

impl<I> AudioClip<I> {
    #[verifier::type_invariant]
    spec fn inv(self) -> bool {
        self@.wf()
    }

    /// A clip of the given samples, or `None` where they are no clip: with
    /// no channel, no rate, or a last frame that lacks a channel.
    pub fn new(data: Vec<I>, channels: u16, sample_rate: u32) -> (clip: Option<Self>)
        ensures
            clip.is_some() <==> (AudioClipView { data: data@, channels, sample_rate }).wf(),
            clip matches Some(c) ==> c@ == (AudioClipView { data: data@, channels, sample_rate }),
    {
        if channels == 0 || sample_rate == 0 || data.len() % (channels as usize) != 0 {
            None
        } else {
            Some(AudioClip { data, channels, sample_rate })
        }
    }

    /// The samples, interleaved by channel.
    pub fn data(&self) -> (d: &Vec<I>)
        ensures
            d@ == self@.data,
            self@.wf(),
    {
        proof {
            use_type_invariant(self);
        }
        &self.data
    }

    /// The number of channels.
    pub fn channels(&self) -> (c: u16)
        ensures
            c == self@.channels,
            c > 0,
    {
        proof {
            use_type_invariant(self);
        }
        self.channels
    }

    /// Frames per second.
    pub fn sample_rate(&self) -> (r: u32)
        ensures
            r == self@.sample_rate,
            r > 0,
    {
        proof {
            use_type_invariant(self);
        }
        self.sample_rate
    }

    /// The number of frames.
    pub fn frames(&self) -> (n: usize)
        ensures
            n == self@.frames(),
            n * self@.channels == self@.data.len(),
    {
        proof {
            use_type_invariant(self);
        }
        let n = self.data.len() / (self.channels as usize);
        proof {
            let len = self.data@.len() as int;
            let channels = self.channels as int;
            vstd::arithmetic::div_mod::lemma_fundamental_div_mod(len, channels);
            assert(n * channels == len) by (nonlinear_arith)
                requires
                    len == channels * n + 0,
            ;
        }
        n
    }

    /// The time one sample of one channel stands for, in nanoseconds.
    pub fn duration_per_sample(&self) -> (ns: u64)
        ensures
            ns == self@.duration_per_sample(),
            ns <= NANOS_PER_SEC,
    {
        proof {
            use_type_invariant(self);
            crate::units::lemma_mul_bound(
                self.sample_rate as int,
                self.channels as int,
                u32::MAX as int,
                u16::MAX as int,
            );
            assert(self.sample_rate as int * self.channels as int >= 1) by (nonlinear_arith)
                requires
                    self.sample_rate >= 1,
                    self.channels >= 1,
            ;
            vstd::arithmetic::div_mod::lemma_div_is_ordered_by_denominator(
                NANOS_PER_SEC as int,
                1,
                self.sample_rate as int * self.channels as int,
            );
        }
        NANOS_PER_SEC / (self.sample_rate as u64 * self.channels as u64)
    }

    /// The time one frame stands for, in nanoseconds.
    pub fn frame_duration(&self) -> (ns: u64)
        ensures
            ns == self@.frame_duration(),
    {
        let per_sample = self.duration_per_sample();
        proof {
            crate::units::lemma_mul_bound(
                per_sample as int,
                self.channels as int,
                NANOS_PER_SEC as int,
                u16::MAX as int,
            );
        }
        per_sample * (self.channels as u64)
    }

    /// The time the whole clip stands for, in nanoseconds, saturating at the
    /// largest time.
    pub fn total_duration(&self) -> (ns: u64)
        ensures
            ns == self@.total_duration(),
    {
        let per_sample = self.duration_per_sample();
        let samples = self.data.len();
        proof {
            crate::units::lemma_mul_bound(
                per_sample as int,
                samples as int,
                NANOS_PER_SEC as int,
                usize::MAX as int,
            );
        }
        let exact = (per_sample as u128) * (samples as u128);
        if exact > u64::MAX as u128 {
            u64::MAX
        } else {
            exact as u64
        }
    }
}

} // verus!
