//! Granular synthesis core: a recorded clip is played as an instrument by
//! emitting short, overlapping, windowed grains of it.
//!
//! Everything here is integer arithmetic. Times are nanoseconds in a `u64`
//! and saturate at `u64::MAX`. Levels (amplitudes, gains, clip positions)
//! are fixed-point numbers in which [`units::UNITY`] stands for 1.0.
//! Curves that need a transcendental function (the raised cosine of the
//! grain window, the pitch ratio of a musical interval, the logarithmic
//! knob law) are reduced here to the exact point at which they are to be
//! evaluated; the caller evaluates them.
//!
//! The [`emitter::Emitter`] is the control half of the instrument. Polled
//! once per output sample, it drains its inbox, lets its voices live, and
//! hands out the grains that are born. A [`grain::Grain`] reads the clip at
//! the clip's own rate and says under which point of its window each
//! sample falls; playing the grains at their pitch and mixing them is the
//! caller's part.

pub mod audio_clip;
pub mod emitter;
pub mod envelope;
pub mod fraction;
pub mod grain;
pub mod midi;
pub mod numeric;
pub mod params;
pub mod units;
pub mod waveform;
