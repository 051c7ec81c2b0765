use nebulizer::audio_clip::AudioClip;
use nebulizer::emitter::Emitter;
use nebulizer::emitter::Note;
use nebulizer::envelope::AdsrEnvelope;
use nebulizer::envelope::GrainEnvelope;
use nebulizer::envelope::Taper;
use nebulizer::fraction::Fraction;
use nebulizer::numeric::Numeric;
use nebulizer::params::ControlParam;
use nebulizer::params::EmitterParams;
use nebulizer::params::LogPoint;
use nebulizer::params::Parameter;
use nebulizer::params::Position;
use nebulizer::units::UNITY;
use nebulizer::waveform::WaveformData;
use std::f32::consts::PI;
use std::sync::mpsc::channel;
use std::sync::Arc;

// The floating-point ends of the curves that the library leaves to its
// caller, as a caller would write them.

fn level_to_f32(level: u32) -> f32 {
    level as f32 / UNITY as f32
}

fn taper_gain(taper: Taper) -> f32 {
    match taper {
        Taper::Silent => 0.0,
        Taper::Full => 1.0,
        Taper::Rising(phase) => 0.5 * (1.0 - f32::cos(PI * level_to_f32(phase))),
        Taper::Falling(phase) => 0.5 * (1.0 + f32::cos(PI * level_to_f32(phase))),
    }
}

fn interval_to_ratio(semitones: i32) -> f32 {
    2.0_f32.powf(semitones as f32 / 12.0)
}

fn fraction_from_f64(position: f64) -> Fraction {
    let steps = 1u64 << 32;
    let num = ((position.clamp(0.0, 1.0) * steps as f64).round() as u64).min(steps);
    Fraction::new(num, steps).unwrap()
}

fn fraction_to_f64(fraction: Fraction) -> f64 {
    fraction.numerator() as f64 / fraction.denominator() as f64
}

fn log_point_value(point: &LogPoint) -> f64 {
    let low = (point.span.floor as f64).log10();
    let high = (point.span.ceiling as f64).log10();
    let t = fraction_to_f64(point.pos);
    10.0_f64.powf((1.0 - t) * low + t * high)
}

fn normalized<I: Numeric>(param: &Parameter<I>) -> f64 {
    match param.get_normalized() {
        Position::At(fraction) => fraction_to_f64(fraction),
        Position::Log { value, span } => {
            let low = (span.floor as f64).log10();
            let high = (span.ceiling as f64).log10();
            (((value as f64).log10() - low) / (high - low)).clamp(0.0, 1.0)
        }
    }
}

fn set_normalized<I: Numeric>(param: &mut Parameter<I>, position: f64) {
    if let Some(point) = param.set_normalized(fraction_from_f64(position)) {
        param.set(I::from_i128(log_point_value(&point).round() as i128));
    }
}

#[test]
fn pitch_ratio_of_the_octaves_is_exact() {
    let (_tx, rx) = channel();
    let clip = Arc::new(AudioClip::new(vec![0i16; 100], 1, 44100).unwrap());
    let e = Emitter::new(clip, rx);
    let speed = |key: u8| {
        interval_to_ratio(e.grain_plan(&Note::new(key, AdsrEnvelope::default())).unwrap().interval)
    };
    assert_eq!(speed(60), 1.0);
    assert_eq!(speed(72), 2.0);
    assert_eq!(speed(48), 0.5);
}

#[test]
fn logarithmic_round_trip_is_within_tolerance() {
    for value in [1_001u64, 2_500, 100_000, 15_000_000, 100_000_000, 999_999_999] {
        let mut p = Parameter::new(value, 0..=1_000_000_000).logarithmic(true).smallest_positive(1000);
        let position = normalized(&p);
        assert!(position > 0.0 && position < 1.0);
        p.set(0);
        set_normalized(&mut p, position);
        let back = p.get();
        let off = if back > value { back - value } else { value - back };
        assert!(off as f64 <= value as f64 * 1e-6 + 1.0);
    }
}

#[test]
fn logarithmic_scale_is_geometric() {
    let mut p = Parameter::new(1000u32, 1000..=100_000).logarithmic(true);
    set_normalized(&mut p, 0.5);
    assert_eq!(p.get(), 10_000);
    assert!((normalized(&p) - 0.5).abs() < 1e-9);
    set_normalized(&mut p, 1.0);
    assert_eq!(p.get(), 100_000);
    set_normalized(&mut p, 0.0);
    assert_eq!(p.get(), 1000);
}

#[test]
fn linear_round_trip_through_floats_is_within_tolerance() {
    for value in [0u32, 1, 17, 32768, 65535, 65536] {
        let mut p = Parameter::new(value, 0..=UNITY);
        let position = normalized(&p);
        p.set(9);
        set_normalized(&mut p, position);
        let back = p.get();
        let off = if back > value { back - value } else { value - back };
        assert!(off <= 1);
    }
}

#[test]
fn controller_on_a_logarithmic_setting_is_finished_by_the_caller() {
    let mut params = EmitterParams::default();
    params.midi_cc_map.push((20, ControlParam::Density));
    let pending = params.apply_controller(20, 127 / 2 + 1);
    assert_eq!(pending.len(), 1);
    let value = log_point_value(&pending[0].point).round() as i128;
    params.set_control_value(pending[0].target, value);
    // A little above the geometric middle of 1 Hz and 100 Hz.
    assert!(params.density.get() > 10_000 && params.density.get() < 10_400);
}

#[test]
fn window_through_the_cosine() {
    let w = GrainEnvelope {
        amount: Parameter::new(UNITY / 2, 0..=UNITY),
        skew: Parameter::new(0, -65536..=65536),
    };
    let at = |num: u64, den: u64| taper_gain(w.amplitude_at(Fraction::new(num, den).unwrap()));
    assert_eq!(at(0, 1), 0.0);
    assert!((at(1, 8) - 0.5).abs() < 1e-6);
    assert_eq!(at(1, 2), 1.0);
    assert!((at(7, 8) - 0.5).abs() < 1e-6);
    assert!(at(1, 1).abs() < 1e-6);
    let curve: Vec<f32> = w.curve(120).into_iter().map(taper_gain).collect();
    assert_eq!(curve.len(), 121);
    assert_eq!(curve[0], 0.0);
    assert_eq!(curve[60], 1.0);
    for pair in curve[..31].windows(2) {
        assert!(pair[0] <= pair[1]);
    }
    for pair in curve[90..].windows(2) {
        assert!(pair[0] >= pair[1]);
    }
}

#[test]
fn envelope_plot_corners() {
    let e = AdsrEnvelope {
        attack: Parameter::new(100, 0..=1000),
        decay: Parameter::new(100, 0..=1000),
        sustain_level: Parameter::new(UNITY / 4, 0..=UNITY),
        release: Parameter::new(200, 0..=1000),
    };
    assert_eq!(
        e.outline(),
        vec![(0, 0), (UNITY / 4, UNITY), (UNITY / 2, UNITY / 4), (UNITY, 0)]
    );
    let flat = AdsrEnvelope {
        attack: Parameter::new(0, 0..=1000),
        decay: Parameter::new(0, 0..=1000),
        sustain_level: Parameter::new(UNITY, 0..=UNITY),
        release: Parameter::new(0, 0..=1000),
    };
    assert_eq!(flat.outline(), vec![(0, 0), (0, UNITY), (0, UNITY), (UNITY, 0)]);
}

#[test]
fn playheads_by_key_mode() {
    let mut params = EmitterParams::default();
    params.position.set(1234);
    assert_eq!(params.playheads(), vec![1234]);
    params.key_mode = nebulizer::params::KeyMode::Slice;
    params.num_slices.set(4);
    assert_eq!(params.playheads(), vec![0, UNITY / 4, UNITY / 2, 3 * UNITY / 4]);
    params.num_slices.set(0);
    assert!(params.playheads().is_empty());
}

#[test]
fn waveform_thumbnail_holds_the_extremes_of_each_stretch() {
    // 432 samples: two to each of the 216 stretches, and one left over.
    let mut data: Vec<i16> = vec![];
    for i in 0..216i16 {
        data.push(i);
        data.push(-2 * i);
    }
    data.push(30000);
    let clip = AudioClip::new(data, 1, 1000).unwrap();
    let waveform = WaveformData::new(&clip);
    assert_eq!(waveform.points.len(), 216);
    assert_eq!(waveform.clip_duration, 433_000_000);
    for i in 0..216i16 {
        assert_eq!(waveform.points[i as usize], (-2 * i, i));
    }
}

#[test]
fn waveform_thumbnail_counts_silence_in() {
    let clip = AudioClip::new(vec![5i16; 216], 1, 1000).unwrap();
    let waveform = WaveformData::new(&clip);
    assert!(waveform.points.iter().all(|p| *p == (0, 5)));
    let short = AudioClip::new(vec![-5i16; 100], 1, 1000).unwrap();
    let waveform = WaveformData::new(&short);
    assert_eq!(waveform.points.len(), 216);
    assert!(waveform.points.iter().all(|p| *p == (0, 0)));
}
