use nebulizer::envelope::tukey_window;
use nebulizer::envelope::AdsrEnvelope;
use nebulizer::envelope::GrainEnvelope;
use nebulizer::envelope::Taper;
use nebulizer::fraction::Fraction;
use nebulizer::params::Parameter;
use nebulizer::units::UNITY;

const MS: u64 = 1_000_000;

fn adsr(attack: u64, decay: u64, sustain: u32, release: u64) -> AdsrEnvelope {
    AdsrEnvelope {
        attack: Parameter::new(attack, 0..=10_000_000_000),
        decay: Parameter::new(decay, 0..=10_000_000_000),
        sustain_level: Parameter::new(sustain, 0..=UNITY),
        release: Parameter::new(release, 0..=10_000_000_000),
    }
}

fn window(amount: u32, skew: i32) -> GrainEnvelope {
    GrainEnvelope {
        amount: Parameter::new(amount, 0..=UNITY),
        skew: Parameter::new(skew, -65536..=65536),
    }
}

#[test]
fn attack_is_a_line_from_silence_to_full_scale() {
    let e = adsr(100 * MS, 200 * MS, UNITY / 2, 300 * MS);
    assert_eq!(e.held_amplitude(0), 0);
    assert_eq!(e.held_amplitude(25 * MS), UNITY / 4);
    assert_eq!(e.held_amplitude(50 * MS), UNITY / 2);
    assert_eq!(e.held_amplitude(100 * MS), UNITY);
}

#[test]
fn decay_is_a_line_from_full_scale_to_sustain() {
    let e = adsr(100 * MS, 200 * MS, UNITY / 2, 300 * MS);
    assert_eq!(e.held_amplitude(200 * MS), 49152);
    assert_eq!(e.held_amplitude(300 * MS), UNITY / 2);
    assert_eq!(e.held_amplitude(5000 * MS), UNITY / 2);
}

#[test]
fn release_is_a_line_from_sustain_to_silence() {
    let e = adsr(100 * MS, 200 * MS, UNITY / 2, 300 * MS);
    assert_eq!(e.released_amplitude(0), UNITY / 2);
    assert_eq!(e.released_amplitude(150 * MS), UNITY / 4);
    assert_eq!(e.released_amplitude(300 * MS), 0);
    assert_eq!(e.released_amplitude(301 * MS), 0);
    assert_eq!(e.released_amplitude(u64::MAX), 0);
}

#[test]
fn stages_of_no_length_are_skipped() {
    let e = adsr(0, 0, 20000, 0);
    assert_eq!(e.held_amplitude(0), 20000);
    assert_eq!(e.released_amplitude(0), 0);
    let no_attack = adsr(0, 100 * MS, 0, 10 * MS);
    assert_eq!(no_attack.held_amplitude(0), UNITY);
    assert_eq!(no_attack.held_amplitude(50 * MS), UNITY / 2);
    let no_decay = adsr(100 * MS, 0, 1000, 10 * MS);
    assert_eq!(no_decay.held_amplitude(100 * MS), 1000);
}

#[test]
fn sustain_above_full_scale_counts_as_full_scale() {
    let e = adsr(0, 100 * MS, 3 * UNITY, 100 * MS);
    assert_eq!(e.held_amplitude(50 * MS), UNITY);
    assert_eq!(e.released_amplitude(0), UNITY);
}

#[test]
fn oneshot_composes_held_and_released() {
    let e = adsr(100 * MS, 200 * MS, UNITY / 2, 300 * MS);
    assert_eq!(e.oneshot_amplitude(50 * MS), UNITY / 2);
    assert_eq!(e.oneshot_amplitude(300 * MS), UNITY / 2);
    assert_eq!(e.oneshot_amplitude(450 * MS), UNITY / 4);
    assert_eq!(e.oneshot_amplitude(600 * MS), 0);
    assert_eq!(e.oneshot_amplitude(6000 * MS), 0);
}

#[test]
fn default_note_envelope() {
    let e = AdsrEnvelope::default();
    assert_eq!(e.attack.get(), 0);
    assert_eq!(e.decay.get(), 1000 * MS);
    assert_eq!(e.sustain_level.get(), UNITY);
    assert_eq!(e.release.get(), 15 * MS);
    assert_eq!(e.attack.range(), 0..=10_000 * MS);
    assert_eq!(e.held_amplitude(0), UNITY);
    assert_eq!(e.released_amplitude(15 * MS), 0);
}

#[test]
fn symmetric_window() {
    // Half of the window is eased: a quarter in, a quarter out.
    assert!(tukey_window(0, 1000, UNITY / 2, 0) == Taper::Rising(0));
    assert!(tukey_window(125, 1000, UNITY / 2, 0) == Taper::Rising(UNITY / 2));
    assert!(tukey_window(250, 1000, UNITY / 2, 0) == Taper::Full);
    assert!(tukey_window(500, 1000, UNITY / 2, 0) == Taper::Full);
    assert!(tukey_window(749, 1000, UNITY / 2, 0) == Taper::Full);
    assert!(tukey_window(750, 1000, UNITY / 2, 0) == Taper::Falling(0));
    assert!(tukey_window(875, 1000, UNITY / 2, 0) == Taper::Falling(UNITY / 2));
    assert!(tukey_window(1000, 1000, UNITY / 2, 0) == Taper::Falling(UNITY));
    assert!(tukey_window(1001, 1000, UNITY / 2, 0) == Taper::Silent);
}

#[test]
fn skewed_window() {
    // All of the eased half is eased out: the window jumps up from silence.
    assert!(tukey_window(0, 1000, UNITY / 2, -65536) == Taper::Rising(0));
    assert!(tukey_window(1, 1000, UNITY / 2, -65536) == Taper::Full);
    assert!(tukey_window(499, 1000, UNITY / 2, -65536) == Taper::Full);
    assert!(tukey_window(750, 1000, UNITY / 2, -65536) == Taper::Falling(UNITY / 2));
    // All of it is eased in.
    assert!(tukey_window(250, 1000, UNITY / 2, 65536) == Taper::Rising(UNITY / 2));
    assert!(tukey_window(500, 1000, UNITY / 2, 65536) == Taper::Full);
    assert!(tukey_window(999, 1000, UNITY / 2, 65536) == Taper::Full);
    // It drops to silence at the very end.
    assert!(tukey_window(1000, 1000, UNITY / 2, 65536) == Taper::Falling(UNITY));
    // A skew outside the range counts as the end of the range.
    assert!(tukey_window(250, 1000, UNITY / 2, i32::MAX) == Taper::Rising(UNITY / 2));
    assert!(tukey_window(750, 1000, UNITY / 2, i32::MIN) == Taper::Falling(UNITY / 2));
}

#[test]
fn window_at_the_skew_limits_is_silent_at_both_ends() {
    let instant_attack = window(UNITY / 2, -65536);
    assert!(instant_attack.amplitude_at(Fraction::zero()) == Taper::Rising(0));
    assert_eq!(instant_attack.amplitude_at(Fraction::zero()).level(), Some(0));
    assert_eq!(instant_attack.amplitude_at(Fraction::new(1, 1000).unwrap()).level(), Some(UNITY));
    assert_eq!(instant_attack.amplitude_at(Fraction::one()).level(), Some(0));
    let instant_decay = window(UNITY / 2, 65536);
    assert!(instant_decay.amplitude_at(Fraction::one()) == Taper::Falling(UNITY));
    assert_eq!(instant_decay.amplitude_at(Fraction::one()).level(), Some(0));
    assert_eq!(instant_decay.amplitude_at(Fraction::new(999, 1000).unwrap()).level(), Some(UNITY));
    assert_eq!(instant_decay.amplitude_at(Fraction::zero()).level(), Some(0));
}

#[test]
fn flat_window_is_full_all_over() {
    for x in 0..=10 {
        assert!(tukey_window(x, 10, 0, 0) == Taper::Full);
        assert!(tukey_window(x, 10, 0, 40000) == Taper::Full);
    }
}

#[test]
fn window_ends_are_silent() {
    for amount in [1u32, 100, UNITY / 2, UNITY, 2 * UNITY] {
        for skew in [i32::MIN, -65536i32, -65535, -3, 0, 70, 65535, 65536, i32::MAX] {
            let w = window(amount, skew);
            assert_eq!(w.amplitude_at(Fraction::zero()).level(), Some(0));
            assert_eq!(w.amplitude_at(Fraction::one()).level(), Some(0));
        }
    }
}

#[test]
fn window_plateau_is_full_scale() {
    let w = window(UNITY / 2, 0);
    assert_eq!(w.amplitude_at(Fraction::half()).level(), Some(UNITY));
    assert_eq!(w.amplitude_at(Fraction::new(1, 4).unwrap()).level(), Some(UNITY));
    assert_eq!(w.amplitude_at(Fraction::new(1, 8).unwrap()).level(), None);
    assert!(w.amplitude_at(Fraction::new(1, 8).unwrap()) == Taper::Rising(UNITY / 2));
}

#[test]
fn taper_levels_known_without_a_cosine() {
    assert_eq!(Taper::Silent.level(), Some(0));
    assert_eq!(Taper::Full.level(), Some(UNITY));
    assert_eq!(Taper::Rising(0).level(), Some(0));
    assert_eq!(Taper::Rising(UNITY).level(), Some(UNITY));
    assert_eq!(Taper::Falling(0).level(), Some(UNITY));
    assert_eq!(Taper::Falling(UNITY).level(), Some(0));
    assert_eq!(Taper::Rising(5).level(), None);
    assert_eq!(Taper::Falling(5).level(), None);
}

#[test]
fn window_of_the_longest_grain_does_not_overflow() {
    assert!(tukey_window(u64::MAX, u64::MAX, UNITY, 0) == Taper::Falling(UNITY));
    assert!(tukey_window(u64::MAX / 2, u64::MAX, UNITY, 65536) == Taper::Rising(32767));
    assert!(tukey_window(0, 0, UNITY, 0) == Taper::Rising(0));
    assert!(tukey_window(0, 0, 0, 0) == Taper::Full);
}
