//! A thumbnail of the clip for display: the lowest and highest sample of
//! each of a fixed number of stretches of the clip.

use crate::audio_clip::AudioClip;
use crate::audio_clip::AudioClipView;
use crate::numeric::Numeric;
use vstd::prelude::*;

verus! {

/// The number of stretches that a thumbnail has.
pub const WAVEFORM_RESOLUTION: usize = 216;

/// The lowest of zero and the samples from `from` up to `to`.
pub open spec fn lowest_in<I: Numeric>(data: Seq<I>, from: int, to: int) -> int
    decreases to - from,
{
    if from >= to {
        0
    } else {
        let rest = lowest_in(data, from, to - 1);
        if data[to - 1].as_int() < rest {
            data[to - 1].as_int()
        } else {
            rest
        }
    }
}

/// The highest of zero and the samples from `from` up to `to`.
pub open spec fn highest_in<I: Numeric>(data: Seq<I>, from: int, to: int) -> int
    decreases to - from,
{
    if from >= to {
        0
    } else {
        let rest = highest_in(data, from, to - 1);
        if data[to - 1].as_int() > rest {
            data[to - 1].as_int()
        } else {
            rest
        }
    }
}

/// The number of samples in each stretch of the thumbnail of a clip of
/// `samples` samples. What is left over at the end of the clip is not
/// shown.
pub open spec fn bin_size(samples: int) -> int {
    samples / WAVEFORM_RESOLUTION as int
}

/// The thumbnail of a clip.
#[derive(Debug)]
pub struct WaveformData<I> {
    /// The lowest and the highest sample of each stretch; both count zero
    /// in, so that the lowest is never above it and the highest never below.
    pub points: Vec<(I, I)>,
    /// The time the clip stands for, in nanoseconds.
    pub clip_duration: u64,
}

impl<I: Numeric> WaveformData<I> {
    /// The thumbnail shows `clip`.
    pub open spec fn shows(self, clip: AudioClipView<I>) -> bool {
        &&& self.points@.len() == WAVEFORM_RESOLUTION
        &&& self.clip_duration == clip.total_duration()
        &&& forall|i: int|
            0 <= i < WAVEFORM_RESOLUTION ==> {
                &&& (#[trigger] self.points@[i]).0.as_int() == lowest_in(
                    clip.data,
                    i * bin_size(clip.data.len() as int),
                    (i + 1) * bin_size(clip.data.len() as int),
                )
                &&& self.points@[i].1.as_int() == highest_in(
                    clip.data,
                    i * bin_size(clip.data.len() as int),
                    (i + 1) * bin_size(clip.data.len() as int),
                )
            }
    }

    /// The thumbnail of `clip`.
    pub fn new(clip: &AudioClip<I>) -> (waveform: Self)
        ensures
            waveform.shows(clip@),
    {
        let data = clip.data();
        let samples = data.len();
        let bin = samples / WAVEFORM_RESOLUTION;
        let zero = I::from_i128(0);
        proof {
            zero.bounded();
            vstd::arithmetic::div_mod::lemma_fundamental_div_mod(
                samples as int,
                WAVEFORM_RESOLUTION as int,
            );
        }
        let mut points: Vec<(I, I)> = Vec::new();
        let mut i: usize = 0;
        while i < WAVEFORM_RESOLUTION
            invariant
                i <= WAVEFORM_RESOLUTION,
                data@ == clip@.data,
                samples == data@.len(),
                bin == bin_size(samples as int),
                WAVEFORM_RESOLUTION * bin <= samples,
                zero.as_int() == 0,
                points@.len() == i,
                forall|k: int|
                    0 <= k < i ==> {
                        &&& (#[trigger] points@[k]).0.as_int() == lowest_in(
                            data@,
                            k * bin,
                            (k + 1) * bin,
                        )
                        &&& points@[k].1.as_int() == highest_in(data@, k * bin, (k + 1) * bin)
                    },
            decreases WAVEFORM_RESOLUTION - i,
        {
            proof {
                assert(i * bin + bin == (i + 1) * bin) by (nonlinear_arith);
                assert((i + 1) * bin <= WAVEFORM_RESOLUTION * bin) by (nonlinear_arith)
                    requires
                        i + 1 <= WAVEFORM_RESOLUTION,
                        bin >= 0,
                ;
            }
            let start = i * bin;
            let mut max = zero;
            let mut min = zero;
            let mut j: usize = 0;
            while j < bin
                invariant
                    j <= bin,
                    start + bin <= samples,
                    samples == data@.len(),
                    min.as_int() == lowest_in(data@, start as int, start + j),
                    max.as_int() == highest_in(data@, start as int, start + j),
                decreases bin - j,
            {
                let val = data[start + j];
                if val.to_i128() > max.to_i128() {
                    max = val;
                }
                if val.to_i128() < min.to_i128() {
                    min = val;
                }
                j = j + 1;
            }
            points.push((min, max));
            i = i + 1;
        }
        WaveformData { points, clip_duration: clip.total_duration() }
    }
}

} // verus!
