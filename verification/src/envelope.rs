//! The two envelope models: the ADSR curve of a note and the tapered
//! window of a grain.

use crate::fraction::Fraction;
use crate::params::Parameter;
use crate::params::ParameterView;
use crate::units::clamp_level;
use crate::units::lemma_mul_bound;
use crate::units::time_add;
use crate::units::UNITY;
use core::ops::RangeInclusive;
use vstd::arithmetic::div_mod::lemma_fundamental_div_mod_converse;
use vstd::prelude::*;

verus! {

/// The ADSR curve at `held_for` after the note went down, for the given
/// attack and decay times and sustain level: a line from 0 to full scale
/// over the attack, a line from full scale to the sustain level over the
/// decay, then the sustain level. A stage of no length is skipped.
pub open spec fn held_level(attack: int, decay: int, sustain: int, held_for: int) -> int {
    if held_for < attack {
        (UNITY * held_for) / attack
    } else if held_for - attack < decay {
        UNITY - ((UNITY - sustain) * (held_for - attack)) / decay
    } else {
        sustain
    }
}

/// The ADSR curve at `since_released` after the note went up: a line from
/// the sustain level to 0 over the release, then 0.
pub open spec fn released_level(release: int, sustain: int, since_released: int) -> int {
    if since_released >= release {
        0
    } else {
        sustain - (sustain * since_released) / release
    }
}

/// The curve of a note that is let go the moment its decay ends.
pub open spec fn oneshot_level(
    attack: int,
    decay: int,
    sustain: int,
    release: int,
    since_triggered: int,
) -> int {
    let attack_decay = time_add(attack, decay);
    if since_triggered <= attack_decay {
        held_level(attack, decay, sustain, since_triggered)
    } else {
        released_level(release, sustain, since_triggered - attack_decay)
    }
}

/// The amplitude curve of a note. Times are nanoseconds; the sustain level
/// counts [`UNITY`] as 1.0, and a level above that as 1.0 too.
#[derive(Clone, Copy, Debug)]
pub struct AdsrEnvelope {
    pub attack: Parameter<u64>,
    pub decay: Parameter<u64>,
    pub sustain_level: Parameter<u32>,
    pub release: Parameter<u64>,
}

impl AdsrEnvelope {
    /// The attack time.
    pub open spec fn attack_time(self) -> int {
        self.attack@.value as int
    }

    /// The decay time.
    pub open spec fn decay_time(self) -> int {
        self.decay@.value as int
    }

    /// The release time.
    pub open spec fn release_time(self) -> int {
        self.release@.value as int
    }

    /// The sustain level, at most full scale.
    pub open spec fn sustain(self) -> int {
        clamp_level(self.sustain_level@.value as int)
    }

    /// The sustain level, at most full scale.
    fn sustain_now(&self) -> (s: u32)
        ensures
            s == self.sustain(),
            s <= UNITY,
    {
        let s = self.sustain_level.get();
        if s > UNITY {
            UNITY
        } else {
            s
        }
    }

    /// The amplitude of a note held for `held_for`.
    pub fn held_amplitude(&self, held_for: u64) -> (level: u32)
        ensures
            level == held_level(
                self.attack_time(),
                self.decay_time(),
                self.sustain(),
                held_for as int,
            ),
            level <= UNITY,
    {
        let attack = self.attack.get();
        let decay = self.decay.get();
        let sustain = self.sustain_now();
        if held_for < attack {
            proof {
                lemma_mul_bound(UNITY as int, held_for as int, UNITY as int, u64::MAX as int);
                lemma_ramp(UNITY as int, held_for as int, attack as int);
            }
            let scaled = (UNITY as u128) * (held_for as u128);
            (scaled / (attack as u128)) as u32
        } else if held_for - attack < decay {
            proof {
                lemma_mul_bound(
                    (UNITY - sustain) as int,
                    (held_for - attack) as int,
                    UNITY as int,
                    u64::MAX as int,
                );
                lemma_ramp((UNITY - sustain) as int, (held_for - attack) as int, decay as int);
            }
            let drop = ((UNITY - sustain) as u128) * ((held_for - attack) as u128);
            UNITY - (drop / (decay as u128)) as u32
        } else {
            sustain
        }
    }

    /// The amplitude of a note let go `since_released` ago.
    pub fn released_amplitude(&self, since_released: u64) -> (level: u32)
        ensures
            level == released_level(self.release_time(), self.sustain(), since_released as int),
            level <= UNITY,
    {
        let release = self.release.get();
        let sustain = self.sustain_now();
        if since_released >= release {
            0
        } else {
            proof {
                lemma_mul_bound(sustain as int, since_released as int, UNITY as int, u64::MAX as int);
                lemma_ramp(sustain as int, since_released as int, release as int);
            }
            let drop = (sustain as u128) * (since_released as u128);
            sustain - (drop / (release as u128)) as u32
        }
    }

    /// The amplitude of a note that was triggered `since_triggered` ago and
    /// is let go the moment its decay ends.
    pub fn oneshot_amplitude(&self, since_triggered: u64) -> (level: u32)
        ensures
            level == oneshot_level(
                self.attack_time(),
                self.decay_time(),
                self.sustain(),
                self.release_time(),
                since_triggered as int,
            ),
            level <= UNITY,
    {
        let attack_decay = self.attack.get().saturating_add(self.decay.get());
        if since_triggered <= attack_decay {
            self.held_amplitude(since_triggered)
        } else {
            self.released_amplitude(since_triggered - attack_decay)
        }
    }
}

/// A share `part / whole` of `level` is at most `level`, and less where
/// `part < whole`.
pub proof fn lemma_ramp(level: int, part: int, whole: int)
    requires
        0 <= level,
        0 <= part < whole,
    ensures
        0 <= (level * part) / whole <= level,
        level * part >= 0,
        part == 0 ==> (level * part) / whole == 0,
{
    let scaled = level * part;
    assert(0 <= scaled <= level * whole) by (nonlinear_arith)
        requires
            scaled == level * part,
            0 <= level,
            0 <= part < whole,
    ;
    vstd::arithmetic::div_mod::lemma_fundamental_div_mod(scaled, whole);
    vstd::arithmetic::div_mod::lemma_mod_bound(scaled, whole);
    let q = scaled / whole;
    let r = scaled % whole;
    assert(0 <= q <= level) by (nonlinear_arith)
        requires
            scaled == whole * q + r,
            0 <= r < whole,
            0 <= scaled <= level * whole,
    ;
    if part == 0 {
        assert(scaled == 0) by (nonlinear_arith)
            requires
                scaled == level * part,
                part == 0,
        ;
        lemma_fundamental_div_mod_converse(0, whole, 0, 0);
    }
}

/// The corner of an envelope plot that lies `time` into an envelope of
/// `total` length, as a share of the width of the plot.
pub open spec fn plot_share(time: int, total: int) -> int {
    if total <= 0 {
        0
    } else {
        (time * UNITY) / total
    }
}

/// The four corners of the plot of a note envelope, each as a share of
/// the width and a level: silence at the start, full scale at the end of
/// the attack, the sustain level at the end of the decay, and silence at
/// the end of the release.
pub open spec fn outline_of(attack: int, decay: int, sustain: int, release: int) -> Seq<
    (u32, u32),
> {
    let total = attack + decay + release;
    seq![
        (0u32, 0u32),
        (plot_share(attack, total) as u32, UNITY),
        (plot_share(attack + decay, total) as u32, sustain as u32),
        (UNITY, 0u32),
    ]
}

impl AdsrEnvelope {
    /// The four corners of the plot of the envelope.
    pub fn outline(&self) -> (corners: Vec<(u32, u32)>)
        ensures
            corners@ == outline_of(
                self.attack_time(),
                self.decay_time(),
                self.sustain(),
                self.release_time(),
            ),
    {
        let attack = self.attack.get() as u128;
        let decay = self.decay.get() as u128;
        let release = self.release.get() as u128;
        let total = attack + decay + release;
        let (to_decay, to_sustain) = if total == 0 {
            (0u32, 0u32)
        } else {
            proof {
                lemma_mul_bound(attack as int, UNITY as int, u64::MAX as int, UNITY as int);
                lemma_mul_bound(
                    (attack + decay) as int,
                    UNITY as int,
                    2 * u64::MAX,
                    UNITY as int,
                );
                lemma_phase(attack as int, total as int);
                lemma_phase((attack + decay) as int, total as int);
            }
            (
                ((attack * (UNITY as u128)) / total) as u32,
                (((attack + decay) * (UNITY as u128)) / total) as u32,
            )
        };
        let mut corners: Vec<(u32, u32)> = Vec::new();
        corners.push((0, 0));
        corners.push((to_decay, UNITY));
        corners.push((to_sustain, self.sustain_now()));
        corners.push((UNITY, 0));
        assert(corners@ =~= outline_of(
            self.attack_time(),
            self.decay_time(),
            self.sustain(),
            self.release_time(),
        ));
        corners
    }
}

/// Continuity of the note envelope: it reaches full scale at the end of
/// the attack where a decay follows, the sustain level at the end of the
/// decay, starts a release at the sustain level where the release has a
/// length, and is silent from the end of the release on.
pub proof fn law_envelope_continuity(attack: int, decay: int, sustain: int, release: int)
    requires
        0 <= attack,
        0 <= decay,
        0 <= release,
        0 <= sustain <= UNITY,
    ensures
        decay > 0 ==> held_level(attack, decay, sustain, attack) == UNITY,
        held_level(attack, decay, sustain, attack + decay) == sustain,
        release > 0 ==> released_level(release, sustain, 0) == sustain,
        released_level(release, sustain, release) == 0,
        forall|t: int| t > release ==> #[trigger] released_level(release, sustain, t) == 0,
{
    if decay > 0 {
        lemma_ramp(UNITY - sustain, 0, decay);
    }
    if release > 0 {
        lemma_ramp(sustain, 0, release);
    }
}

/// The envelope never leaves the range from silence to full scale.
pub proof fn law_envelope_bounded(attack: int, decay: int, sustain: int, release: int, t: int)
    requires
        0 <= attack,
        0 <= decay,
        0 <= release,
        0 <= sustain <= UNITY,
        0 <= t,
    ensures
        0 <= held_level(attack, decay, sustain, t) <= UNITY,
        0 <= released_level(release, sustain, t) <= sustain,
{
    if t < attack {
        lemma_ramp(UNITY as int, t, attack);
    } else if t - attack < decay {
        lemma_ramp(UNITY - sustain, t - attack, decay);
    }
    if t < release {
        lemma_ramp(sustain, t, release);
    }
}

impl Default for AdsrEnvelope {
    /// No attack, a decay of one second, full sustain and a release of 15
    /// milliseconds; the times range logarithmically up to ten seconds, with
    /// a microsecond as the smallest positive time.
    fn default() -> (e: Self)
        ensures
            e.attack@ == (ParameterView::<u64> {
                value: 0,
                min: 0,
                max: 10_000_000_000,
                logarithmic: true,
                smallest_positive: 1000,
            }),
            e.decay@ == (ParameterView::<u64> { value: 1_000_000_000, ..e.attack@ }),
            e.release@ == (ParameterView::<u64> { value: 15_000_000, ..e.attack@ }),
            e.sustain_level@ == (ParameterView::<u32> {
                value: UNITY,
                min: 0,
                max: UNITY,
                logarithmic: false,
                smallest_positive: 1,
            }),
    {
        AdsrEnvelope {
            attack: Parameter::new(0, RangeInclusive::new(0, 10_000_000_000)).logarithmic(
                true,
            ).smallest_positive(1000),
            decay: Parameter::new(1_000_000_000, RangeInclusive::new(0, 10_000_000_000)).logarithmic(
                true,
            ).smallest_positive(1000),
            sustain_level: Parameter::new(UNITY, RangeInclusive::new(0, UNITY)),
            release: Parameter::new(15_000_000, RangeInclusive::new(0, 10_000_000_000)).logarithmic(
                true,
            ).smallest_positive(1000),
        }
    }
}

/// A point of the grain window.
///
/// The two tapers are halves of a raised cosine. Their phase counts
/// [`UNITY`] as the whole taper: at phase `p` a rising taper is at
/// `(1 - cos(pi * p)) / 2` and a falling one at `(1 + cos(pi * p)) / 2`.
#[derive(Clone, Copy, Debug, PartialEq, Eq, Structural)]
pub enum Taper {
    /// Outside the window: no sound.
    Silent,
    /// In the eased-in region, at this phase.
    Rising(u32),
    /// On the plateau: full scale.
    Full,
    /// In the eased-out region, at this phase.
    Falling(u32),
}

/// The level of a window point where no cosine is needed to tell it: off
/// the tapers, and at their two ends.
pub open spec fn known_level(t: Taper) -> Option<int> {
    match t {
        Taper::Silent => Some(0),
        Taper::Full => Some(UNITY as int),
        Taper::Rising(p) => if p == 0 {
            Some(0)
        } else if p == UNITY {
            Some(UNITY as int)
        } else {
            None
        },
        Taper::Falling(p) => if p == 0 {
            Some(UNITY as int)
        } else if p == UNITY {
            Some(0)
        } else {
            None
        },
    }
}

impl Taper {
    /// The level of the point, where it is known without a cosine.
    pub fn level(&self) -> (l: Option<u32>)
        ensures
            l.is_some() == known_level(*self).is_some(),
            l matches Some(v) ==> known_level(*self) == Some(v as int),
    {
        match *self {
            Taper::Silent => Some(0),
            Taper::Full => Some(UNITY),
            Taper::Rising(p) => if p == 0 {
                Some(0)
            } else if p == UNITY {
                Some(UNITY)
            } else {
                None
            },
            Taper::Falling(p) => if p == 0 {
                Some(UNITY)
            } else if p == UNITY {
                Some(0)
            } else {
                None
            },
        }
    }
}

/// Twice the square of [`UNITY`]: the unit in which the widths of the
/// tapers are whole numbers.
pub const TAPER_SCALE: u64 = 8_589_934_592;

/// A skew limited to the range from -1.0 to 1.0.
pub open spec fn clamp_skew(skew: int) -> int {
    if skew < -(UNITY as int) {
        -(UNITY as int)
    } else if skew > UNITY as int {
        UNITY as int
    } else {
        skew
    }
}

/// The width of the eased-in region of a window of the given length, in
/// units of `1 / TAPER_SCALE`: half of `length * radius * (1 + skew)`.
pub open spec fn ease_in_width(length: int, radius: int, skew: int) -> int {
    length * clamp_level(radius) * (UNITY + clamp_skew(skew))
}

/// The width of the eased-out region, in units of `1 / TAPER_SCALE`: half
/// of `length * radius * (1 - skew)`.
pub open spec fn ease_out_width(length: int, radius: int, skew: int) -> int {
    length * clamp_level(radius) * (UNITY - clamp_skew(skew))
}

/// The tapered cosine window of the given length at `x`: silent outside,
/// eased in over the first region, full on the plateau, eased out over the
/// last region. With anything eased the window starts and ends in
/// silence, whatever the skew: a taper of no width is a jump, from silence
/// at the very end of the window to full scale next to it. With nothing
/// eased the window is at full scale from end to end.
pub open spec fn window_at(x: int, length: int, radius: int, skew: int) -> Taper {
    let rise = ease_in_width(length, radius, skew);
    let fall = ease_out_width(length, radius, skew);
    let at = x * TAPER_SCALE;
    let end = length * TAPER_SCALE;
    if x < 0 || x > length {
        Taper::Silent
    } else if radius > 0 && x == 0 {
        Taper::Rising(0)
    } else if radius > 0 && x == length {
        Taper::Falling(UNITY)
    } else if at < rise {
        Taper::Rising(((at * UNITY) / rise) as u32)
    } else if at + fall < end || fall == 0 {
        Taper::Full
    } else {
        Taper::Falling((((at + fall - end) * UNITY) / fall) as u32)
    }
}

/// The tapered cosine ("Tukey") window of the given length at `x`, with
/// `radius` the share of the window that is eased in or out and `skew`
/// the bias between the two: at -1.0 all of it is eased out, at 1.0 all of
/// it is eased in.
pub fn tukey_window(x: u64, length: u64, radius: u32, skew: i32) -> (t: Taper)
    ensures
        t == window_at(x as int, length as int, radius as int, skew as int),
{
    let r: u32 = if radius > UNITY {
        UNITY
    } else {
        radius
    };
    let s: i32 = if skew < -65536 {
        -65536
    } else if skew > 65536 {
        65536
    } else {
        skew
    };
    let up: u128 = (65536 + s) as u128;
    let down: u128 = (65536 - s) as u128;
    proof {
        lemma_mul_bound(length as int, r as int, u64::MAX as int, UNITY as int);
        lemma_mul_bound(length * r, up as int, u64::MAX * UNITY, 2 * UNITY);
        lemma_mul_bound(length * r, down as int, u64::MAX * UNITY, 2 * UNITY);
        lemma_mul_bound(x as int, TAPER_SCALE as int, u64::MAX as int, TAPER_SCALE as int);
        lemma_mul_bound(length as int, TAPER_SCALE as int, u64::MAX as int, TAPER_SCALE as int);
    }
    let spread: u128 = (length as u128) * (r as u128);
    let rise: u128 = spread * up;
    let fall: u128 = spread * down;
    let at: u128 = (x as u128) * (TAPER_SCALE as u128);
    let end: u128 = (length as u128) * (TAPER_SCALE as u128);
    if x > length {
        Taper::Silent
    } else if r > 0 && x == 0 {
        Taper::Rising(0)
    } else if r > 0 && x == length {
        Taper::Falling(UNITY)
    } else if at < rise {
        proof {
            lemma_mul_bound(at as int, UNITY as int, u64::MAX * TAPER_SCALE, UNITY as int);
            lemma_phase(at as int, rise as int);
        }
        Taper::Rising(((at * (UNITY as u128)) / rise) as u32)
    } else if at + fall < end || fall == 0 {
        Taper::Full
    } else {
        proof {
            assert(at <= end) by (nonlinear_arith)
                requires
                    at == x * TAPER_SCALE,
                    end == length * TAPER_SCALE,
                    x <= length,
            ;
            lemma_mul_bound(
                (at + fall - end) as int,
                UNITY as int,
                u64::MAX * UNITY * (2 * UNITY),
                UNITY as int,
            );
            lemma_phase((at + fall - end) as int, fall as int);
        }
        Taper::Falling((((at + fall - end) * (UNITY as u128)) / fall) as u32)
    }
}

/// A share `part / whole` of `level`, with the whole included, is at most
/// `level`.
pub proof fn lemma_ramp_whole(level: int, part: int, whole: int)
    requires
        0 <= level,
        0 <= part <= whole,
        0 < whole,
    ensures
        0 <= (level * part) / whole <= level,
        part == 0 ==> (level * part) / whole == 0,
{
    if part < whole {
        lemma_ramp(level, part, whole);
    } else {
        lemma_fundamental_div_mod_converse(level * part, whole, level, 0);
    }
}

/// A phase `part / whole` in steps of `1 / UNITY` is at most [`UNITY`],
/// less than it where `part < whole`, and equal to it where
/// `part == whole`.
pub proof fn lemma_phase(part: int, whole: int)
    requires
        0 <= part <= whole,
        0 < whole,
    ensures
        0 <= (part * UNITY) / whole <= UNITY,
        part < whole ==> (part * UNITY) / whole < UNITY,
        part == whole ==> (part * UNITY) / whole == UNITY,
        part == 0 ==> (part * UNITY) / whole == 0,
{
    let scaled = part * UNITY;
    vstd::arithmetic::div_mod::lemma_fundamental_div_mod(scaled, whole);
    vstd::arithmetic::div_mod::lemma_mod_bound(scaled, whole);
    let q = scaled / whole;
    let r = scaled % whole;
    assert(0 <= q <= UNITY && (part < whole ==> q < UNITY)) by (nonlinear_arith)
        requires
            scaled == part * UNITY,
            scaled == whole * q + r,
            0 <= r < whole,
            0 <= part <= whole,
    ;
    if part == whole {
        assert(scaled == UNITY * whole + 0) by (nonlinear_arith)
            requires
                scaled == part * UNITY,
                part == whole,
        ;
        lemma_fundamental_div_mod_converse(scaled, whole, UNITY as int, 0);
    }
    if part == 0 {
        lemma_fundamental_div_mod_converse(scaled, whole, 0, 0);
    }
}

/// The window of a grain: the share of the grain that is eased in or out,
/// and the bias between the two.
#[derive(Clone, Copy, Debug)]
pub struct GrainEnvelope {
    /// The eased share of the grain, from 0 to [`UNITY`].
    pub amount: Parameter<u32>,
    /// The bias, from minus [`UNITY`] (instant attack, long decay) to
    /// [`UNITY`] (long attack, instant decay).
    pub skew: Parameter<i32>,
}

impl GrainEnvelope {
    /// The window at the share `x` of the grain.
    pub open spec fn window(self, x: Fraction) -> Taper {
        window_at(x.num(), x.den(), self.amount@.value as int, self.skew@.value as int)
    }

    /// The window at the share `x` of the grain.
    pub fn amplitude_at(&self, x: Fraction) -> (t: Taper)
        ensures
            t == self.window(x),
    {
        tukey_window(x.numerator(), x.denominator(), self.amount.get(), self.skew.get())
    }

    /// The window at `steps + 1` points spread evenly over the grain, both
    /// ends included: the curve of a plot.
    pub fn curve(&self, steps: u16) -> (points: Vec<Taper>)
        ensures
            points@.len() == steps + 1,
            forall|i: int|
                0 <= i <= steps ==> #[trigger] points@[i] == window_at(
                    i,
                    steps as int,
                    self.amount@.value as int,
                    self.skew@.value as int,
                ),
    {
        let mut points: Vec<Taper> = Vec::new();
        let amount = self.amount.get();
        let skew = self.skew.get();
        let mut i: u32 = 0;
        while i <= steps as u32
            invariant
                i <= steps + 1,
                amount == self.amount@.value,
                skew == self.skew@.value,
                points@.len() == i,
                forall|k: int|
                    0 <= k < i ==> #[trigger] points@[k] == window_at(
                        k,
                        steps as int,
                        amount as int,
                        skew as int,
                    ),
            decreases steps + 1 - i,
        {
            points.push(tukey_window(i as u64, steps as u64, amount, skew));
            i = i + 1;
        }
        points
    }
}

/// With anything eased the window is silent at its two ends, whatever
/// the skew.
pub proof fn law_window_ends(length: int, radius: int, skew: int)
    requires
        0 <= length,
        0 < radius,
    ensures
        known_level(window_at(0, length, radius, skew)) == Some(0int),
        known_level(window_at(length, length, radius, skew)) == Some(0int),
{
}

/// Strictly inside the window, between the two tapers, the window is at
/// full scale.
pub proof fn law_window_plateau(x: int, length: int, radius: int, skew: int)
    requires
        0 < x < length,
        ease_in_width(length, radius, skew) <= x * TAPER_SCALE,
        x * TAPER_SCALE + ease_out_width(length, radius, skew) < length * TAPER_SCALE,
    ensures
        window_at(x, length, radius, skew) == Taper::Full,
{
}

/// Next to the two ends the window follows its tapers: a point strictly
/// inside the window lies on a taper exactly where that taper has a width
/// which reaches it.
pub proof fn law_window_inside(x: int, length: int, radius: int, skew: int)
    requires
        0 < x < length,
    ensures
        window_at(x, length, radius, skew) is Rising <==> x * TAPER_SCALE < ease_in_width(
            length,
            radius,
            skew,
        ),
        window_at(x, length, radius, skew) is Silent == false,
{
}

/// With nothing eased the window is at full scale all over.
pub proof fn law_window_flat(x: int, length: int, skew: int)
    requires
        0 <= x <= length,
    ensures
        window_at(x, length, 0, skew) == Taper::Full,
{
    assert(ease_in_width(length, 0, skew) == 0) by (nonlinear_arith)
        requires
            ease_in_width(length, 0, skew) == length * 0 * (UNITY + clamp_skew(skew)),
    ;
    assert(ease_out_width(length, 0, skew) == 0) by (nonlinear_arith)
        requires
            ease_out_width(length, 0, skew) == length * 0 * (UNITY - clamp_skew(skew)),
    ;
    assert(x * TAPER_SCALE >= 0) by (nonlinear_arith)
        requires
            x >= 0,
    ;
}

} // verus!
