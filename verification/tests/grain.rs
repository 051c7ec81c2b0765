use nebulizer::audio_clip::AudioClip;
use nebulizer::envelope::GrainEnvelope;
use nebulizer::envelope::Taper;
use nebulizer::grain::Grain;
use nebulizer::grain::GrainInner;
use nebulizer::params::Parameter;
use nebulizer::units::UNITY;

fn flat() -> GrainEnvelope {
    GrainEnvelope { amount: Parameter::new(0, 0..=UNITY), skew: Parameter::new(0, -65536..=65536) }
}

fn half() -> GrainEnvelope {
    GrainEnvelope {
        amount: Parameter::new(UNITY / 2, 0..=UNITY),
        skew: Parameter::new(0, -65536..=65536),
    }
}

fn ramp(samples: usize, channels: u16, rate: u32) -> AudioClip<i16> {
    AudioClip::new((0..samples as i16).collect(), channels, rate).unwrap()
}

#[test]
fn clip_needs_channels_rate_and_whole_frames() {
    assert!(AudioClip::new(vec![1i16, 2, 3, 4], 2, 44100).is_some());
    assert!(AudioClip::new(vec![1i16, 2, 3], 2, 44100).is_none());
    assert!(AudioClip::new(vec![1i16, 2, 3, 4], 0, 44100).is_none());
    assert!(AudioClip::new(vec![1i16, 2, 3, 4], 2, 0).is_none());
    assert!(AudioClip::<i16>::new(vec![], 1, 8000).is_some());
}

#[test]
fn clip_reports_what_it_was_made_of() {
    let clip = AudioClip::new(vec![0.5f32, -0.5, 0.25, -0.25, 0.0, 1.0], 2, 48000).unwrap();
    assert_eq!(clip.channels(), 2);
    assert_eq!(clip.sample_rate(), 48000);
    assert_eq!(clip.frames(), 3);
    assert_eq!(clip.data().len(), 6);
    assert_eq!(clip.data()[3], -0.25);
}

#[test]
fn clip_durations() {
    let mono = AudioClip::new(vec![0i16; 44100], 1, 44100).unwrap();
    assert_eq!(mono.duration_per_sample(), 22675);
    assert_eq!(mono.frame_duration(), 22675);
    assert_eq!(mono.total_duration(), 22675 * 44100);
    let stereo = ramp(1000, 2, 48000);
    assert_eq!(stereo.duration_per_sample(), 10416);
    assert_eq!(stereo.frame_duration(), 20832);
    assert_eq!(stereo.total_duration(), 10_416_000);
    let fast = AudioClip::new(vec![0u8; 4], 4, u32::MAX).unwrap();
    assert_eq!(fast.duration_per_sample(), 0);
    assert_eq!(fast.total_duration(), 0);
}

#[test]
fn raw_cursor_reads_to_the_end_and_no_further() {
    let clip = ramp(3, 1, 1000);
    let mut inner = GrainInner::new(1);
    assert_eq!(inner.next(&clip), Some(1));
    assert_eq!(inner.next(&clip), Some(2));
    assert_eq!(inner.next(&clip), None);
    assert_eq!(inner.next(&clip), None);
    let mut past = GrainInner::new(usize::MAX);
    assert_eq!(past.next(&clip), None);
    assert_eq!(past.index(), usize::MAX);
}

#[test]
fn raw_cursor_moves_on_with_every_call() {
    let clip = ramp(3, 1, 1000);
    let mut inner = GrainInner::new(2);
    assert_eq!(inner.index(), 2);
    assert_eq!(inner.next(&clip), Some(2));
    assert_eq!(inner.index(), 3);
    assert_eq!(inner.next(&clip), None);
    assert_eq!(inner.index(), 4);
    assert_eq!(inner.next(&clip), None);
    assert_eq!(inner.index(), 5);
    // The clip is as it was.
    assert_eq!(clip.data(), &vec![0, 1, 2]);
}

#[test]
fn grain_starts_at_a_whole_frame() {
    let clip = ramp(1000, 2, 1000);
    let mut at_half = Grain::new(&clip, UNITY / 2, 1_000_000_000, 0, UNITY, flat());
    assert_eq!(at_half.next(&clip), Some((500, Taper::Full)));
    let mut at_start = Grain::new(&clip, 0, 1_000_000_000, 0, UNITY, flat());
    assert_eq!(at_start.next(&clip), Some((0, Taper::Full)));
    // 500 frames * 21845 / 65536 = 166.66.. frames, so frame 166, sample 332.
    let mut at_third = Grain::new(&clip, 21845, 1_000_000_000, 0, UNITY, flat());
    assert_eq!(at_third.next(&clip), Some((332, Taper::Full)));
    let mut at_end = Grain::new(&clip, UNITY, 1_000_000_000, 0, UNITY, flat());
    assert_eq!(at_end.next(&clip), None);
    let mut beyond = Grain::new(&clip, u32::MAX, 1_000_000_000, 0, UNITY, flat());
    assert_eq!(beyond.next(&clip), None);
}

#[test]
fn grain_ends_when_its_length_has_elapsed() {
    // One sample stands for a millisecond.
    let clip = ramp(100, 1, 1000);
    let mut grain = Grain::new(&clip, 0, 4_000_000, 0, UNITY, flat());
    assert_eq!(grain.total_duration(), 4_000_000);
    let mut read = vec![];
    while let Some((sample, taper)) = grain.next(&clip) {
        assert!(taper == Taper::Full);
        read.push(sample);
    }
    assert_eq!(read, vec![0, 1, 2, 3]);
    assert!(grain.is_done());
    assert_eq!(grain.next(&clip), None);
}

#[test]
fn grain_of_no_length_is_done_at_once() {
    let clip = ramp(100, 1, 1000);
    let mut grain = Grain::new(&clip, 0, 0, 0, UNITY, half());
    assert!(grain.is_done());
    assert_eq!(grain.next(&clip), None);
}

#[test]
fn grain_stops_at_the_end_of_the_clip() {
    let clip = ramp(10, 1, 1000);
    // Ten milliseconds are asked for at the eighth of ten samples.
    let mut grain = Grain::new(&clip, 52429, 10_000_000, 0, UNITY, flat());
    assert_eq!(grain.next(&clip), Some((8, Taper::Full)));
    assert_eq!(grain.next(&clip), Some((9, Taper::Full)));
    assert_eq!(grain.next(&clip), None);
    assert!(!grain.is_done());
}

#[test]
fn grain_reports_the_window_with_each_sample() {
    let clip = ramp(100, 1, 1000);
    let mut grain = Grain::new(&clip, 0, 8_000_000, 0, UNITY, half());
    let mut tapers = vec![];
    while let Some((_, taper)) = grain.next(&clip) {
        tapers.push(taper);
    }
    assert_eq!(tapers.len(), 8);
    assert!(tapers[0] == Taper::Rising(0));
    assert!(tapers[1] == Taper::Rising(UNITY / 2));
    assert!(tapers[2] == Taper::Full);
    assert!(tapers[5] == Taper::Full);
    assert!(tapers[6] == Taper::Falling(0));
    assert!(tapers[7] == Taper::Falling(UNITY / 2));
}

#[test]
fn grain_carries_its_pitch_and_level() {
    let clip = ramp(100, 2, 8000);
    let grain = Grain::new(&clip, 0, 1000, -7, 12345, flat());
    assert_eq!(grain.interval(), -7);
    assert_eq!(grain.amplitude(), 12345);
    assert_eq!(grain.channels(), 2);
    assert_eq!(grain.sample_rate(), 8000);
}

#[test]
fn grain_draw_data_follows_the_cursor() {
    let clip = ramp(100, 1, 1000);
    let mut grain = Grain::new(&clip, UNITY / 2, 4_000_000, 0, UNITY, flat());
    let d = grain.draw();
    assert_eq!((d.current_position, d.current_progress), (UNITY / 2, 0));
    grain.next(&clip);
    let d = grain.draw();
    // 51 of 100 samples, 1 of 4 milliseconds.
    assert_eq!((d.current_position, d.current_progress), (33423, UNITY / 4));
    grain.next(&clip);
    grain.next(&clip);
    grain.next(&clip);
    let d = grain.draw();
    assert_eq!((d.current_position, d.current_progress), (35389, UNITY));
}
