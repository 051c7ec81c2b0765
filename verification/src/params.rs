//! Bounded parameters and their mapping to a position in `[0, 1]`.

use crate::envelope::AdsrEnvelope;
use crate::envelope::GrainEnvelope;
use crate::fraction::Fraction;
use crate::numeric::clamp;
use crate::numeric::Numeric;
use crate::units::UNITY;
use core::ops::RangeInclusive;
use vstd::arithmetic::div_mod::lemma_fundamental_div_mod_converse;
use vstd::prelude::*;

verus! {

/// `RangeInclusive::start` of std: the lower bound the range was made
/// with, as long as the range has not been iterated to its end.
pub assume_specification<Idx>[ RangeInclusive::<Idx>::start ](r: &RangeInclusive<Idx>) -> (ret:
    &Idx)
    ensures
        !r@.exhausted ==> *ret == r@.start,
;

/// `RangeInclusive::end` of std: the upper bound the range was made with,
/// as long as the range has not been iterated to its end.
pub assume_specification<Idx>[ RangeInclusive::<Idx>::end ](r: &RangeInclusive<Idx>) -> (ret: &Idx)
    ensures
        !r@.exhausted ==> *ret == r@.end,
;

/// `m / d` rounded toward zero, for a positive `d`.
pub open spec fn truncate(m: int, d: int) -> int {
    if m >= 0 {
        m / d
    } else {
        -((-m) / d)
    }
}

/// The floor of a logarithmic scale whose range starts at `low`: the
/// larger of `low` and the smallest positive value.
pub open spec fn log_floor(low: int, smallest_positive: int) -> int {
    if low <= smallest_positive {
        smallest_positive
    } else {
        low
    }
}

/// Where a value lies in its range, as mathematics.
pub enum PositionSpec {
    /// At the exact fraction `num / den`.
    At { num: int, den: int },
    /// On the logarithmic curve between `floor` and `ceiling`, at `value`.
    Log { value: int, floor: int, ceiling: int },
}

/// Where a position lands in a range, as mathematics.
pub enum LandingSpec {
    /// On exactly this value.
    Value(int),
    /// On the logarithmic curve between `floor` and `ceiling`, at the
    /// fraction `num / den` of the way.
    Log { num: int, den: int, floor: int, ceiling: int },
}

/// The position of `value` on the linear scale from `lo` up to `hi`, as
/// numerator and denominator: the offset over the width, limited to the
/// unit interval.
pub open spec fn linear_position(value: int, lo: int, hi: int) -> (int, int) {
    if value <= lo {
        (0, 1)
    } else if value >= hi {
        (1, 1)
    } else {
        (value - lo, hi - lo)
    }
}

/// The position of `value` in the range from `min` to `max`: one half in a
/// range of one point; counted from the far end in a descending range,
/// which is always read on a linear scale; on the logarithmic curve
/// strictly inside a logarithmic range.
pub open spec fn position_of(
    value: int,
    min: int,
    max: int,
    logarithmic: bool,
    smallest_positive: int,
) -> PositionSpec {
    if min == max {
        PositionSpec::At { num: 1, den: 2 }
    } else if min > max {
        PositionSpec::At {
            num: linear_position(value, max, min).1 - linear_position(value, max, min).0,
            den: linear_position(value, max, min).1,
        }
    } else if logarithmic && min < value < max {
        PositionSpec::Log { value, floor: log_floor(min, smallest_positive), ceiling: max }
    } else {
        PositionSpec::At {
            num: linear_position(value, min, max).0,
            den: linear_position(value, min, max).1,
        }
    }
}

/// The value at the fraction `num / den` of the linear scale from `lo` up
/// to `hi`: linear interpolation, rounded toward zero.
pub open spec fn linear_landing(num: int, den: int, lo: int, hi: int) -> int {
    if num <= 0 {
        lo
    } else if num >= den {
        hi
    } else {
        truncate(lo * den + (hi - lo) * num, den)
    }
}

/// The value at the fraction `num / den` of the range from `min` to `max`:
/// the one point of a range of one point; counted from the far end in a
/// descending range, which is always read on a linear scale; on the
/// logarithmic curve strictly inside a logarithmic range.
pub open spec fn landing_of(
    num: int,
    den: int,
    min: int,
    max: int,
    logarithmic: bool,
    smallest_positive: int,
) -> LandingSpec {
    if min == max {
        LandingSpec::Value(min)
    } else if min > max {
        LandingSpec::Value(linear_landing(den - num, den, max, min))
    } else if logarithmic && 0 < num < den {
        LandingSpec::Log { num, den, floor: log_floor(min, smallest_positive), ceiling: max }
    } else {
        LandingSpec::Value(linear_landing(num, den, min, max))
    }
}

/// The two ends of a logarithmic scale.
#[derive(Clone, Copy, Debug)]
pub struct LogSpan {
    /// The low end: the larger of the range's low end and the smallest
    /// positive value.
    pub floor: u64,
    /// The high end of the range.
    pub ceiling: u64,
}

/// Where a parameter's value lies in its range.
#[derive(Clone, Copy, Debug)]
pub enum Position {
    /// At this fraction of the way.
    At(Fraction),
    /// Strictly inside a logarithmic range: the position is
    /// `(log value - log floor) / (log ceiling - log floor)`, limited to
    /// `[0, 1]`.
    Log { value: u64, span: LogSpan },
}

impl Position {
    /// The position as mathematics.
    pub open spec fn spec(self) -> PositionSpec {
        match self {
            Position::At(f) => PositionSpec::At { num: f.num(), den: f.den() },
            Position::Log { value, span } => PositionSpec::Log {
                value: value as int,
                floor: span.floor as int,
                ceiling: span.ceiling as int,
            },
        }
    }
}

/// A point strictly inside a logarithmic range: the value there is ten to
/// the power of the linear interpolation between `log floor` and
/// `log ceiling` at `pos`.
#[derive(Clone, Copy, Debug)]
pub struct LogPoint {
    pub pos: Fraction,
    pub span: LogSpan,
}

impl LogPoint {
    /// The point as mathematics.
    pub open spec fn spec(self) -> LandingSpec {
        LandingSpec::Log {
            num: self.pos.num(),
            den: self.pos.den(),
            floor: self.span.floor as int,
            ceiling: self.span.ceiling as int,
        }
    }
}

/// Where a position lands in a parameter's range.
#[derive(Debug)]
pub enum Landing<I> {
    /// On this value.
    Value(I),
    /// On a logarithmic curve, which is left to evaluate.
    Log(LogPoint),
}

impl<I: Numeric> Landing<I> {
    /// The landing as mathematics.
    pub open spec fn spec(self) -> LandingSpec {
        match self {
            Landing::Value(v) => LandingSpec::Value(v.as_int()),
            Landing::Log(point) => point.spec(),
        }
    }
}

/// What a parameter holds.
pub struct ParameterView<I> {
    pub value: I,
    pub min: I,
    pub max: I,
    pub logarithmic: bool,
    pub smallest_positive: I,
}

impl<I: Numeric> ParameterView<I> {
    /// A logarithmic scale runs upward from a low end that is not
    /// negative.
    pub open spec fn wf(self) -> bool {
        self.logarithmic ==> 0 <= self.min.as_int() < self.max.as_int()
    }

    /// The value lies between the two ends of the range.
    pub open spec fn in_range(self) -> bool {
        ||| self.min.as_int() <= self.value.as_int() <= self.max.as_int()
        ||| self.max.as_int() <= self.value.as_int() <= self.min.as_int()
    }

    /// The position of the current value.
    pub open spec fn position(self) -> PositionSpec {
        position_of(
            self.value.as_int(),
            self.min.as_int(),
            self.max.as_int(),
            self.logarithmic,
            self.smallest_positive.as_int(),
        )
    }

    /// Where the fraction `num / den` lands.
    pub open spec fn landing(self, num: int, den: int) -> LandingSpec {
        landing_of(
            num,
            den,
            self.min.as_int(),
            self.max.as_int(),
            self.logarithmic,
            self.smallest_positive.as_int(),
        )
    }

    /// The same parameter holding `value`.
    pub open spec fn with_value(self, value: I) -> Self {
        ParameterView { value, ..self }
    }

    /// The parameter after its value was moved to the fraction `num / den`
    /// of the range: unchanged where that lands on a logarithmic curve.
    pub open spec fn moved_to(self, num: int, den: int) -> Self {
        match self.landing(num, den) {
            LandingSpec::Value(v) => self.with_value(I::of_int(v)),
            LandingSpec::Log { .. } => self,
        }
    }
}

/// A value with an inclusive range, linear or logarithmic, that can be read
/// and set as a position in `[0, 1]`.
#[derive(Debug)]
pub struct Parameter<I: Numeric> {
    value: I,
    min: I,
    max: I,
    logarithmic: bool,
    smallest_positive: I,
}

impl<I: Numeric> Clone for Parameter<I> {
    fn clone(&self) -> (r: Self)
        ensures
            r == *self,
    {
        *self
    }
}

impl<I: Numeric> Copy for Parameter<I> {

}

impl<I: Numeric> View for Parameter<I> {
    type V = ParameterView<I>;

    closed spec fn view(&self) -> ParameterView<I> {
        ParameterView {
            value: self.value,
            min: self.min,
            max: self.max,
            logarithmic: self.logarithmic,
            smallest_positive: self.smallest_positive,
        }
    }
}

impl<I: Numeric> Parameter<I> {
    #[verifier::type_invariant]
    spec fn inv(self) -> bool {
        self@.wf()
    }

    /// A linear parameter over `range`, holding `default`. The smallest
    /// positive value is one unit.
    pub fn new(default: I, range: RangeInclusive<I>) -> (p: Self)
        requires
            !range@.exhausted,
        ensures
            p@.value == default,
            p@.min == range@.start,
            p@.max == range@.end,
            !p@.logarithmic,
            p@.smallest_positive.as_int() == 1,
            p@.wf(),
    {
        proof {
            default.bounded();
        }
        Parameter {
            value: default,
            min: *range.start(),
            max: *range.end(),
            logarithmic: false,
            smallest_positive: I::from_i128(1),
        }
    }
    /// The same parameter on a logarithmic scale, or on a linear one.
    ///
    /// A logarithmic scale needs a range that runs upward from a low end
    /// that is not negative.
    pub fn logarithmic(self, logarithmic: bool) -> (p: Self)
        requires
            logarithmic ==> 0 <= self@.min.as_int() < self@.max.as_int(),
        ensures
            p@ == (ParameterView { logarithmic, ..self@ }),
            p@.wf(),
    {
        Parameter {
            value: self.value,
            min: self.min,
            max: self.max,
            logarithmic,
            smallest_positive: self.smallest_positive,
        }
    }

    /// The same parameter with another floor for its logarithmic scale.
    pub fn smallest_positive(self, smallest_positive: I) -> (p: Self)
        ensures
            p@ == (ParameterView { smallest_positive, ..self@ }),
            p@.wf(),
    {
        proof {
            use_type_invariant(&self);
        }
        Parameter {
            value: self.value,
            min: self.min,
            max: self.max,
            logarithmic: self.logarithmic,
            smallest_positive,
        }
    }

    /// The current value.
    pub fn get(&self) -> (v: I)
        ensures
            v == self@.value,
            self@.wf(),
    {
        proof {
            use_type_invariant(self);
        }
        self.value
    }

    /// Replaces the current value. The value is taken as it is: a caller
    /// that wants it inside the range passes one that is.
    pub fn set(&mut self, val: I)
        ensures
            final(self)@ == old(self)@.with_value(val),
            *final(self) == old(self).holding(val),
    {
        proof {
            use_type_invariant(&*self);
        }
        self.value = val;
    }

    /// The range the parameter was made with.
    pub fn range(&self) -> (r: RangeInclusive<I>)
        ensures
            r@.start == self@.min,
            r@.end == self@.max,
            !r@.exhausted,
    {
        RangeInclusive::new(self.min, self.max)
    }

    /// The position of the current value in the range.
    pub fn get_normalized(&self) -> (r: Position)
        ensures
            r.spec() == self@.position(),
    {
        self.value_to_normalized(self.value)
    }

    /// Moves the value to the position `norm_val` of the range.
    ///
    /// Where the position lands on a logarithmic curve the value is left as
    /// it was and the point to evaluate is returned.
    pub fn set_normalized(&mut self, norm_val: Fraction) -> (pending: Option<LogPoint>)
        ensures
            final(self)@ == old(self)@.moved_to(norm_val.num(), norm_val.den()),
            *final(self) == old(self).at(norm_val.num(), norm_val.den()),
            match old(self)@.landing(norm_val.num(), norm_val.den()) {
                LandingSpec::Value(v) => pending.is_none(),
                log => pending.is_some() && pending.unwrap().spec() == log,
            },
    {
        match self.normalized_to_value(norm_val) {
            Landing::Value(v) => {
                proof {
                    v.inverse(0);
                }
                self.set(v);
                None
            },
            Landing::Log(point) => Some(point),
        }
    }

    /// The parameter after its value was moved to the fraction `num / den`
    /// of the range.
    pub closed spec fn at(self, num: int, den: int) -> Self {
        Parameter { value: self@.moved_to(num, den).value, ..self }
    }

    /// The parameter with another value.
    pub closed spec fn holding(self, value: I) -> Self {
        Parameter { value, ..self }
    }

    /// What `at` and `holding` mean for what the parameter holds.
    pub proof fn lemma_at(self, num: int, den: int, value: I)
        ensures
            self.at(num, den)@ == self@.moved_to(num, den),
            self.holding(value)@ == self@.with_value(value),
    {
    }


    /// The two ends of the logarithmic scale over the ascending range from
    /// `lo` to `hi`.
    fn log_span(&self, lo: i128, hi: i128) -> (span: LogSpan)
        requires
            0 <= lo < hi <= u64::MAX,
        ensures
            span.floor == log_floor(lo as int, self@.smallest_positive.as_int()),
            span.ceiling == hi,
    {
        proof {
            self.smallest_positive.bounded();
        }
        let sp = self.smallest_positive.to_i128();
        let floor = if lo <= sp {
            sp
        } else {
            lo
        };
        LogSpan { floor: floor as u64, ceiling: hi as u64 }
    }

    /// The position of `value` in the range.
    pub fn value_to_normalized(&self, value: I) -> (r: Position)
        ensures
            r.spec() == self@.with_value(value).position(),
    {
        proof {
            use_type_invariant(self);
            value.bounded();
            self.min.bounded();
            self.max.bounded();
        }
        let v = value.to_i128();
        let min = self.min.to_i128();
        let max = self.max.to_i128();
        if min == max {
            return Position::At(Fraction::half());
        }
        let descending = min > max;
        let (lo, hi) = if descending {
            (max, min)
        } else {
            (min, max)
        };
        if !descending && self.logarithmic && lo < v && v < hi {
            return Position::Log { value: v as u64, span: self.log_span(lo, hi) };
        }
        let linear = if v <= lo {
            Fraction::zero()
        } else if v >= hi {
            Fraction::one()
        } else {
            Fraction::new((v - lo) as u64, (hi - lo) as u64).unwrap()
        };
        if descending {
            Position::At(linear.complement())
        } else {
            Position::At(linear)
        }
    }

    /// The value at the position `normalized` of the range.
    pub fn normalized_to_value(&self, normalized: Fraction) -> (r: Landing<I>)
        ensures
            r.spec() == self@.landing(normalized.num(), normalized.den()),
    {
        proof {
            use_type_invariant(self);
            self.min.bounded();
            self.max.bounded();
        }
        let min = self.min.to_i128();
        let max = self.max.to_i128();
        if min == max {
            return Landing::Value(self.min);
        }
        let descending = min > max;
        let (lo, hi, low_end, high_end, pos) = if descending {
            (max, min, self.max, self.min, normalized.complement())
        } else {
            (min, max, self.min, self.max, normalized)
        };
        let num = pos.numerator();
        let den = pos.denominator();
        if num == 0 {
            Landing::Value(low_end)
        } else if num >= den {
            Landing::Value(high_end)
        } else if !descending && self.logarithmic {
            Landing::Log(LogPoint { pos, span: self.log_span(lo, hi) })
        } else {
            let width = (hi - lo) as u128;
            assert(width * num <= u64::MAX * u64::MAX) by (nonlinear_arith)
                requires
                    0 <= width <= u64::MAX,
                    0 <= num <= u64::MAX,
            ;
            let scaled = width * (num as u128);
            let quotient = scaled / (den as u128);
            let remainder = scaled % (den as u128);
            proof {
                lemma_interpolate(
                    lo as int,
                    hi as int,
                    num as int,
                    den as int,
                    quotient as int,
                    remainder as int,
                );
            }
            let base = lo + quotient as i128;
            let landed = if remainder != 0 && base < 0 {
                base + 1
            } else {
                base
            };
            Landing::Value(I::from_i128(landed))
        }
    }
}

/// Linear interpolation in pieces: with `(hi - lo) * num` split by `den`
/// into `quotient` and `remainder`, the interpolated value rounded toward
/// zero is `lo + quotient`, plus one where that is negative and a
/// remainder is left; and it lies between `lo` and `hi`.
pub proof fn lemma_interpolate(lo: int, hi: int, num: int, den: int, quotient: int, remainder: int)
    requires
        lo < hi,
        0 < num < den,
        quotient == ((hi - lo) * num) / den,
        remainder == ((hi - lo) * num) % den,
    ensures
        0 <= quotient < hi - lo,
        0 <= remainder < den,
        truncate(lo * den + (hi - lo) * num, den) == if remainder != 0 && lo + quotient < 0 {
            lo + quotient + 1
        } else {
            lo + quotient
        },
        lo <= truncate(lo * den + (hi - lo) * num, den) <= hi,
{
    let scaled = (hi - lo) * num;
    let whole = lo * den + scaled;
    let base = lo + quotient;
    vstd::arithmetic::div_mod::lemma_fundamental_div_mod(scaled, den);
    vstd::arithmetic::div_mod::lemma_mod_bound(scaled, den);
    assert(scaled == den * quotient + remainder);
    assert(0 < scaled < (hi - lo) * den) by (nonlinear_arith)
        requires
            scaled == (hi - lo) * num,
            lo < hi,
            0 < num < den,
    ;
    assert(0 <= quotient < hi - lo) by (nonlinear_arith)
        requires
            scaled == den * quotient + remainder,
            0 <= remainder < den,
            0 < scaled < (hi - lo) * den,
    ;
    assert(whole == base * den + remainder) by (nonlinear_arith)
        requires
            whole == lo * den + scaled,
            scaled == den * quotient + remainder,
            base == lo + quotient,
    ;
    if whole >= 0 {
        assert(base >= 0) by (nonlinear_arith)
            requires
                whole == base * den + remainder,
                whole >= 0,
                0 <= remainder < den,
        ;
        lemma_fundamental_div_mod_converse(whole, den, base, remainder);
    } else {
        assert(base < 0) by (nonlinear_arith)
            requires
                whole == base * den + remainder,
                whole < 0,
                0 <= remainder < den,
        ;
        if remainder == 0 {
            assert(-whole == (-base) * den + 0) by (nonlinear_arith)
                requires
                    whole == base * den + remainder,
                    remainder == 0,
            ;
            lemma_fundamental_div_mod_converse(-whole, den, -base, 0);
        } else {
            assert(-whole == (-base - 1) * den + (den - remainder)) by (nonlinear_arith)
                requires
                    whole == base * den + remainder,
            ;
            lemma_fundamental_div_mod_converse(-whole, den, -base - 1, den - remainder);
        }
    }
}

/// `truncate` undoes a multiplication by its divisor.
pub proof fn lemma_truncate_multiple(v: int, d: int)
    requires
        d > 0,
    ensures
        truncate(v * d, d) == v,
{
    if v >= 0 {
        assert(v * d >= 0) by (nonlinear_arith)
            requires
                v >= 0,
                d > 0,
        ;
        lemma_fundamental_div_mod_converse(v * d, d, v, 0);
    } else {
        assert(v * d < 0) by (nonlinear_arith)
            requires
                v < 0,
                d > 0,
        ;
        assert(-(v * d) == (-v) * d + 0) by (nonlinear_arith);
        lemma_fundamental_div_mod_converse(-(v * d), d, -v, 0);
    }
}

/// A position is a fraction in the unit interval, whatever the value and
/// the range.
pub proof fn law_position_in_unit_interval<I: Numeric>(p: ParameterView<I>)
    ensures
        p.position() matches PositionSpec::At { num, den } ==> 0 <= num <= den && 0 < den,
{
}

/// A landing lies between the two ends of the range, whatever the position.
pub proof fn law_landing_in_range<I: Numeric>(p: ParameterView<I>, num: int, den: int)
    requires
        0 <= num <= den,
        0 < den,
    ensures
        p.landing(num, den) matches LandingSpec::Value(v) ==> (p.min.as_int() <= v
            <= p.max.as_int() || p.max.as_int() <= v <= p.min.as_int()),
{
    let min = p.min.as_int();
    let max = p.max.as_int();
    if min < max && 0 < num < den && !p.logarithmic {
        lemma_interpolate(min, max, num, den, ((max - min) * num) / den, ((max - min) * num) % den);
    }
    if min > max && 0 < den - num < den {
        let n = den - num;
        lemma_interpolate(max, min, n, den, ((min - max) * n) / den, ((min - max) * n) % den);
    }
}

/// Reading a parameter's position and setting the parameter to that
/// position reproduces its value exactly, for every value within the
/// range, wherever the position is a fraction: on every linear scale, and
/// at the two ends of a logarithmic one.
pub proof fn law_round_trip<I: Numeric>(p: ParameterView<I>)
    requires
        p.in_range(),
    ensures
        p.position() matches PositionSpec::At { num, den } ==> p.landing(num, den)
            == LandingSpec::Value(p.value.as_int()),
        p.position() matches PositionSpec::At { num, den } ==> p.moved_to(num, den) == p,
{
    p.value.inverse(0);
    let v = p.value.as_int();
    let min = p.min.as_int();
    let max = p.max.as_int();
    if min < max {
        if min < v < max && !p.logarithmic {
            let den = max - min;
            assert(min * den + (max - min) * (v - min) == v * den) by (nonlinear_arith)
                requires
                    den == max - min,
            ;
            lemma_truncate_multiple(v, den);
        }
    } else if min > max {
        if max < v < min {
            let den = min - max;
            assert(max * den + (min - max) * (den - (den - (v - max))) == v * den)
                by (nonlinear_arith)
                requires
                    den == min - max,
            ;
            lemma_truncate_multiple(v, den);
        }
    }
}

/// On an ascending linear scale a larger value has a larger position.
pub proof fn law_position_monotonic<I: Numeric>(p: ParameterView<I>, other: I)
    requires
        !p.logarithmic,
        p.min.as_int() < p.max.as_int(),
        p.value.as_int() <= other.as_int(),
    ensures
        p.position() matches PositionSpec::At { num: n1, den: d1 } && p.with_value(
            other,
        ).position() matches PositionSpec::At { num: n2, den: d2 } && n1 * d2 <= n2 * d1,
{
    let min = p.min.as_int();
    let max = p.max.as_int();
    let v1 = p.value.as_int();
    let v2 = other.as_int();
    let (n1, d1) = if v1 <= min {
        (0int, 1int)
    } else if v1 >= max {
        (1int, 1int)
    } else {
        (v1 - min, max - min)
    };
    let (n2, d2) = if v2 <= min {
        (0int, 1int)
    } else if v2 >= max {
        (1int, 1int)
    } else {
        (v2 - min, max - min)
    };
    assert(p.position() == PositionSpec::At { num: n1, den: d1 });
    assert(p.with_value(other).position() == PositionSpec::At { num: n2, den: d2 });
    assert(n1 * d2 <= n2 * d1) by (nonlinear_arith)
        requires
            0 <= n1 <= d1,
            0 <= n2 <= d2,
            d1 == 1 || d1 == max - min,
            d2 == 1 || d2 == max - min,
            max - min > 0,
            n1 == 0 || (n2 == d2) || (d1 == d2 && n1 <= n2),
    ;
}

/// What the key of a note selects.
#[derive(Clone, Copy, Debug, PartialEq, Eq, Structural)]
pub enum KeyMode {
    /// The key sets the pitch of the grains.
    Pitch,
    /// The key picks the slice of the clip at which the grains start.
    Slice,
}

/// The settings of an emitter that a MIDI controller can move.
#[derive(Clone, Copy, Debug, PartialEq, Eq, Structural)]
pub enum ControlParam {
    Position,
    NumSlices,
    Spray,
    Length,
    Density,
    GrainEnvelopeAmount,
    GrainEnvelopeSkew,
    NoteEnvelopeAttack,
    NoteEnvelopeDecay,
    NoteEnvelopeSustain,
    NoteEnvelopeRelease,
    Transpose,
    Amplitude,
}

impl ControlParam {
    /// Every setting, in the order of declaration.
    pub open spec fn all() -> Seq<ControlParam> {
        seq![
            ControlParam::Position,
            ControlParam::NumSlices,
            ControlParam::Spray,
            ControlParam::Length,
            ControlParam::Density,
            ControlParam::GrainEnvelopeAmount,
            ControlParam::GrainEnvelopeSkew,
            ControlParam::NoteEnvelopeAttack,
            ControlParam::NoteEnvelopeDecay,
            ControlParam::NoteEnvelopeSustain,
            ControlParam::NoteEnvelopeRelease,
            ControlParam::Transpose,
            ControlParam::Amplitude,
        ]
    }

    /// Every setting, in the order of declaration.
    pub fn variants() -> (v: Vec<ControlParam>)
        ensures
            v@ == Self::all(),
    {
        let mut v = Vec::new();
        v.push(ControlParam::Position);
        v.push(ControlParam::NumSlices);
        v.push(ControlParam::Spray);
        v.push(ControlParam::Length);
        v.push(ControlParam::Density);
        v.push(ControlParam::GrainEnvelopeAmount);
        v.push(ControlParam::GrainEnvelopeSkew);
        v.push(ControlParam::NoteEnvelopeAttack);
        v.push(ControlParam::NoteEnvelopeDecay);
        v.push(ControlParam::NoteEnvelopeSustain);
        v.push(ControlParam::NoteEnvelopeRelease);
        v.push(ControlParam::Transpose);
        v.push(ControlParam::Amplitude);
        assert(v@ =~= Self::all());
        v
    }

    /// The name of the setting.
    pub open spec fn spec_name(self) -> Seq<char> {
        match self {
            ControlParam::Position => "Position"@,
            ControlParam::NumSlices => "NumSlices"@,
            ControlParam::Spray => "Spray"@,
            ControlParam::Length => "Length"@,
            ControlParam::Density => "Density"@,
            ControlParam::GrainEnvelopeAmount => "GrainEnvelopeAmount"@,
            ControlParam::GrainEnvelopeSkew => "GrainEnvelopeSkew"@,
            ControlParam::NoteEnvelopeAttack => "NoteEnvelopeAttack"@,
            ControlParam::NoteEnvelopeDecay => "NoteEnvelopeDecay"@,
            ControlParam::NoteEnvelopeSustain => "NoteEnvelopeSustain"@,
            ControlParam::NoteEnvelopeRelease => "NoteEnvelopeRelease"@,
            ControlParam::Transpose => "Transpose"@,
            ControlParam::Amplitude => "Amplitude"@,
        }
    }

    /// The name of the setting.
    pub fn name(&self) -> (s: &'static str)
        ensures
            s@ == self.spec_name(),
    {
        match self {
            ControlParam::Position => "Position",
            ControlParam::NumSlices => "NumSlices",
            ControlParam::Spray => "Spray",
            ControlParam::Length => "Length",
            ControlParam::Density => "Density",
            ControlParam::GrainEnvelopeAmount => "GrainEnvelopeAmount",
            ControlParam::GrainEnvelopeSkew => "GrainEnvelopeSkew",
            ControlParam::NoteEnvelopeAttack => "NoteEnvelopeAttack",
            ControlParam::NoteEnvelopeDecay => "NoteEnvelopeDecay",
            ControlParam::NoteEnvelopeSustain => "NoteEnvelopeSustain",
            ControlParam::NoteEnvelopeRelease => "NoteEnvelopeRelease",
            ControlParam::Transpose => "Transpose",
            ControlParam::Amplitude => "Amplitude",
        }
    }
}

/// `truncate(m, d)` is the whole number next to `m / d` on the side of
/// zero.
pub proof fn lemma_truncate_bounds(m: int, d: int)
    requires
        d > 0,
    ensures
        m >= 0 ==> 0 <= truncate(m, d) && truncate(m, d) * d <= m < (truncate(m, d) + 1) * d,
        m < 0 ==> truncate(m, d) <= 0 && (truncate(m, d) - 1) * d < m <= truncate(m, d) * d,
{
    if m >= 0 {
        vstd::arithmetic::div_mod::lemma_fundamental_div_mod(m, d);
        vstd::arithmetic::div_mod::lemma_mod_bound(m, d);
        let q = m / d;
        let r = m % d;
        assert(0 <= q && q * d <= m < (q + 1) * d) by (nonlinear_arith)
            requires
                m == d * q + r,
                0 <= r < d,
                m >= 0,
        ;
    } else {
        vstd::arithmetic::div_mod::lemma_fundamental_div_mod(-m, d);
        vstd::arithmetic::div_mod::lemma_mod_bound(-m, d);
        let q = (-m) / d;
        let r = (-m) % d;
        assert(0 <= q && (-q - 1) * d < m <= (-q) * d) by (nonlinear_arith)
            requires
                -m == d * q + r,
                0 <= r < d,
                m < 0,
        ;
    }
}

/// Rounding toward zero keeps the order of two quotients.
pub proof fn lemma_truncate_monotonic(m1: int, d1: int, m2: int, d2: int)
    requires
        d1 > 0,
        d2 > 0,
        m1 * d2 <= m2 * d1,
    ensures
        truncate(m1, d1) <= truncate(m2, d2),
{
    lemma_truncate_bounds(m1, d1);
    lemma_truncate_bounds(m2, d2);
    let t1 = truncate(m1, d1);
    let t2 = truncate(m2, d2);
    if m1 >= 0 && m2 >= 0 {
        assert(t1 <= t2) by (nonlinear_arith)
            requires
                t1 * d1 <= m1,
                m2 < (t2 + 1) * d2,
                m1 * d2 <= m2 * d1,
                d1 > 0,
                d2 > 0,
        ;
    } else if m1 >= 0 && m2 < 0 {
        assert(false) by (nonlinear_arith)
            requires
                m1 >= 0,
                m2 < 0,
                d1 > 0,
                d2 > 0,
                m1 * d2 <= m2 * d1,
        ;
    } else if m1 < 0 && m2 < 0 {
        assert(t1 <= t2) by (nonlinear_arith)
            requires
                (t1 - 1) * d1 < m1,
                m2 <= t2 * d2,
                m1 * d2 <= m2 * d1,
                d1 > 0,
                d2 > 0,
        ;
    }
}

/// On an ascending linear scale a larger position lands on a larger
/// value, or on the same.
pub proof fn law_landing_monotonic<I: Numeric>(
    p: ParameterView<I>,
    num1: int,
    den1: int,
    num2: int,
    den2: int,
)
    requires
        !p.logarithmic,
        p.min.as_int() < p.max.as_int(),
        0 <= num1 <= den1,
        0 < den1,
        0 <= num2 <= den2,
        0 < den2,
        num1 * den2 <= num2 * den1,
    ensures
        p.landing(num1, den1) matches LandingSpec::Value(v1) && p.landing(
            num2,
            den2,
        ) matches LandingSpec::Value(v2) && v1 <= v2,
{
    let lo = p.min.as_int();
    let hi = p.max.as_int();
    law_landing_in_range(p, num1, den1);
    law_landing_in_range(p, num2, den2);
    if num1 > 0 && num2 < den2 {
        assert(num1 < den1 && num2 > 0) by (nonlinear_arith)
            requires
                0 < num1 <= den1,
                0 <= num2 < den2,
                num1 * den2 <= num2 * den1,
        ;
        let m1 = lo * den1 + (hi - lo) * num1;
        let m2 = lo * den2 + (hi - lo) * num2;
        assert(m1 * den2 <= m2 * den1) by (nonlinear_arith)
            requires
                m1 == lo * den1 + (hi - lo) * num1,
                m2 == lo * den2 + (hi - lo) * num2,
                num1 * den2 <= num2 * den1,
                hi - lo > 0,
        ;
        lemma_truncate_monotonic(m1, den1, m2, den2);
    }
}

/// A MIDI controller number bound to the setting it moves.
pub type MidiControlMap = Vec<(u8, ControlParam)>;

/// A logarithmic curve left to evaluate for one setting.
#[derive(Clone, Copy, Debug)]
pub struct PendingControl {
    /// The setting to move.
    pub target: ControlParam,
    /// The point of its logarithmic range to move it to.
    pub point: LogPoint,
}

/// The live settings of an emitter.
///
/// Positions and levels count [`UNITY`] as 1.0, times are nanoseconds, and
/// the density is in grains per thousand seconds.
#[derive(Debug)]
pub struct EmitterParams {
    /// The controllers bound to settings: every entry that names the
    /// controller of a message is applied, in the order of the table.
    pub midi_cc_map: MidiControlMap,
    /// Whether MIDI keys control the pitch or the start position.
    pub key_mode: KeyMode,
    /// The number of equal slices of the clip that keys select in slice mode.
    pub num_slices: Parameter<u8>,
    /// The share of the clip at which a grain starts in pitch mode.
    pub position: Parameter<u32>,
    /// The width of the random deviation from the start position, as a time.
    pub spray: Parameter<u64>,
    /// The length of a grain.
    pub length: Parameter<u64>,
    /// The number of grains spawned per thousand seconds by each note.
    pub density: Parameter<u32>,
    /// The window applied to each grain.
    pub grain_envelope: GrainEnvelope,
    /// The envelope applied to each note.
    pub note_envelope: AdsrEnvelope,
    /// The number of notes that can sound at once.
    pub polyphony: u32,
    /// The pitch shift of the clip, in semitones.
    pub transpose: Parameter<i32>,
    /// The output level.
    pub amplitude: Parameter<u32>,
}

impl EmitterParams {
    /// The settings with `target` moved to the fraction `num / den` of its
    /// range.
    pub open spec fn with_control(self, target: ControlParam, num: int, den: int) -> EmitterParams {
        match target {
            ControlParam::Position => EmitterParams {
                position: self.position.at(num, den),
                ..self
            },
            ControlParam::NumSlices => EmitterParams {
                num_slices: self.num_slices.at(num, den),
                ..self
            },
            ControlParam::Spray => EmitterParams { spray: self.spray.at(num, den), ..self },
            ControlParam::Length => EmitterParams { length: self.length.at(num, den), ..self },
            ControlParam::Density => EmitterParams { density: self.density.at(num, den), ..self },
            ControlParam::GrainEnvelopeAmount => EmitterParams {
                grain_envelope: GrainEnvelope {
                    amount: self.grain_envelope.amount.at(num, den),
                    ..self.grain_envelope
                },
                ..self
            },
            ControlParam::GrainEnvelopeSkew => EmitterParams {
                grain_envelope: GrainEnvelope {
                    skew: self.grain_envelope.skew.at(num, den),
                    ..self.grain_envelope
                },
                ..self
            },
            ControlParam::NoteEnvelopeAttack => EmitterParams {
                note_envelope: AdsrEnvelope {
                    attack: self.note_envelope.attack.at(num, den),
                    ..self.note_envelope
                },
                ..self
            },
            ControlParam::NoteEnvelopeDecay => EmitterParams {
                note_envelope: AdsrEnvelope {
                    decay: self.note_envelope.decay.at(num, den),
                    ..self.note_envelope
                },
                ..self
            },
            ControlParam::NoteEnvelopeSustain => EmitterParams {
                note_envelope: AdsrEnvelope {
                    sustain_level: self.note_envelope.sustain_level.at(num, den),
                    ..self.note_envelope
                },
                ..self
            },
            ControlParam::NoteEnvelopeRelease => EmitterParams {
                note_envelope: AdsrEnvelope {
                    release: self.note_envelope.release.at(num, den),
                    ..self.note_envelope
                },
                ..self
            },
            ControlParam::Transpose => EmitterParams {
                transpose: self.transpose.at(num, den),
                ..self
            },
            ControlParam::Amplitude => EmitterParams {
                amplitude: self.amplitude.at(num, den),
                ..self
            },
        }
    }

    /// Where the fraction `num / den` lands in the range of `target`.
    pub open spec fn control_landing(self, target: ControlParam, num: int, den: int) -> LandingSpec {
        match target {
            ControlParam::Position => self.position@.landing(num, den),
            ControlParam::NumSlices => self.num_slices@.landing(num, den),
            ControlParam::Spray => self.spray@.landing(num, den),
            ControlParam::Length => self.length@.landing(num, den),
            ControlParam::Density => self.density@.landing(num, den),
            ControlParam::GrainEnvelopeAmount => self.grain_envelope.amount@.landing(num, den),
            ControlParam::GrainEnvelopeSkew => self.grain_envelope.skew@.landing(num, den),
            ControlParam::NoteEnvelopeAttack => self.note_envelope.attack@.landing(num, den),
            ControlParam::NoteEnvelopeDecay => self.note_envelope.decay@.landing(num, den),
            ControlParam::NoteEnvelopeSustain => self.note_envelope.sustain_level@.landing(
                num,
                den,
            ),
            ControlParam::NoteEnvelopeRelease => self.note_envelope.release@.landing(num, den),
            ControlParam::Transpose => self.transpose@.landing(num, den),
            ControlParam::Amplitude => self.amplitude@.landing(num, den),
        }
    }

    /// Moves `target` to the position `pos` of its range. Where that lands
    /// on a logarithmic curve the setting is left as it was and the point to
    /// evaluate is returned.
    pub fn set_control_normalized(&mut self, target: ControlParam, pos: Fraction) -> (pending:
        Option<LogPoint>)
        ensures
            *final(self) == old(self).with_control(target, pos.num(), pos.den()),
            match old(self).control_landing(target, pos.num(), pos.den()) {
                LandingSpec::Value(v) => pending.is_none(),
                log => pending.is_some() && pending.unwrap().spec() == log,
            },
    {
        match target {
            ControlParam::Position => self.position.set_normalized(pos),
            ControlParam::NumSlices => self.num_slices.set_normalized(pos),
            ControlParam::Spray => self.spray.set_normalized(pos),
            ControlParam::Length => self.length.set_normalized(pos),
            ControlParam::Density => self.density.set_normalized(pos),
            ControlParam::GrainEnvelopeAmount => self.grain_envelope.amount.set_normalized(pos),
            ControlParam::GrainEnvelopeSkew => self.grain_envelope.skew.set_normalized(pos),
            ControlParam::NoteEnvelopeAttack => self.note_envelope.attack.set_normalized(pos),
            ControlParam::NoteEnvelopeDecay => self.note_envelope.decay.set_normalized(pos),
            ControlParam::NoteEnvelopeSustain => self.note_envelope.sustain_level.set_normalized(
                pos,
            ),
            ControlParam::NoteEnvelopeRelease => self.note_envelope.release.set_normalized(pos),
            ControlParam::Transpose => self.transpose.set_normalized(pos),
            ControlParam::Amplitude => self.amplitude.set_normalized(pos),
        }
    }
}

impl PendingControl {
    /// The pending curve as mathematics.
    pub open spec fn spec(self) -> (ControlParam, LandingSpec) {
        (self.target, self.point.spec())
    }
}

impl EmitterParams {
    /// The settings with the value of `target` replaced by the value of its
    /// kind nearest to `value`.
    pub open spec fn with_control_value(self, target: ControlParam, value: int) -> EmitterParams {
        let byte = u8::of_int(clamp(value, u8::lowest(), u8::highest()));
        let word = u32::of_int(clamp(value, u32::lowest(), u32::highest()));
        let long = u64::of_int(clamp(value, u64::lowest(), u64::highest()));
        let signed = i32::of_int(clamp(value, i32::lowest(), i32::highest()));
        match target {
            ControlParam::Position => EmitterParams {
                position: self.position.holding(word),
                ..self
            },
            ControlParam::NumSlices => EmitterParams {
                num_slices: self.num_slices.holding(byte),
                ..self
            },
            ControlParam::Spray => EmitterParams { spray: self.spray.holding(long), ..self },
            ControlParam::Length => EmitterParams { length: self.length.holding(long), ..self },
            ControlParam::Density => EmitterParams { density: self.density.holding(word), ..self },
            ControlParam::GrainEnvelopeAmount => EmitterParams {
                grain_envelope: GrainEnvelope {
                    amount: self.grain_envelope.amount.holding(word),
                    ..self.grain_envelope
                },
                ..self
            },
            ControlParam::GrainEnvelopeSkew => EmitterParams {
                grain_envelope: GrainEnvelope {
                    skew: self.grain_envelope.skew.holding(signed),
                    ..self.grain_envelope
                },
                ..self
            },
            ControlParam::NoteEnvelopeAttack => EmitterParams {
                note_envelope: AdsrEnvelope {
                    attack: self.note_envelope.attack.holding(long),
                    ..self.note_envelope
                },
                ..self
            },
            ControlParam::NoteEnvelopeDecay => EmitterParams {
                note_envelope: AdsrEnvelope {
                    decay: self.note_envelope.decay.holding(long),
                    ..self.note_envelope
                },
                ..self
            },
            ControlParam::NoteEnvelopeSustain => EmitterParams {
                note_envelope: AdsrEnvelope {
                    sustain_level: self.note_envelope.sustain_level.holding(word),
                    ..self.note_envelope
                },
                ..self
            },
            ControlParam::NoteEnvelopeRelease => EmitterParams {
                note_envelope: AdsrEnvelope {
                    release: self.note_envelope.release.holding(long),
                    ..self.note_envelope
                },
                ..self
            },
            ControlParam::Transpose => EmitterParams {
                transpose: self.transpose.holding(signed),
                ..self
            },
            ControlParam::Amplitude => EmitterParams {
                amplitude: self.amplitude.holding(word),
                ..self
            },
        }
    }

    /// Replaces the value of `target` by the value of its kind nearest to
    /// `value`: the way back for a logarithmic curve once evaluated.
    pub fn set_control_value(&mut self, target: ControlParam, value: i128)
        ensures
            *final(self) == old(self).with_control_value(target, value as int),
    {
        match target {
            ControlParam::Position => self.position.set(u32::from_i128(value)),
            ControlParam::NumSlices => self.num_slices.set(u8::from_i128(value)),
            ControlParam::Spray => self.spray.set(u64::from_i128(value)),
            ControlParam::Length => self.length.set(u64::from_i128(value)),
            ControlParam::Density => self.density.set(u32::from_i128(value)),
            ControlParam::GrainEnvelopeAmount => self.grain_envelope.amount.set(
                u32::from_i128(value),
            ),
            ControlParam::GrainEnvelopeSkew => self.grain_envelope.skew.set(i32::from_i128(value)),
            ControlParam::NoteEnvelopeAttack => self.note_envelope.attack.set(
                u64::from_i128(value),
            ),
            ControlParam::NoteEnvelopeDecay => self.note_envelope.decay.set(u64::from_i128(value)),
            ControlParam::NoteEnvelopeSustain => self.note_envelope.sustain_level.set(
                u32::from_i128(value),
            ),
            ControlParam::NoteEnvelopeRelease => self.note_envelope.release.set(
                u64::from_i128(value),
            ),
            ControlParam::Transpose => self.transpose.set(i32::from_i128(value)),
            ControlParam::Amplitude => self.amplitude.set(u32::from_i128(value)),
        }
    }

    /// The settings after a controller message: every entry of `map` that
    /// names `controller` has moved its setting to the fraction `num / den`
    /// of its range, in the order of the table.
    pub open spec fn after_controller(
        self,
        map: Seq<(u8, ControlParam)>,
        controller: u8,
        num: int,
        den: int,
    ) -> EmitterParams
        decreases map.len(),
    {
        if map.len() == 0 {
            self
        } else {
            let before = self.after_controller(map.drop_last(), controller, num, den);
            if map.last().0 == controller {
                before.with_control(map.last().1, num, den)
            } else {
                before
            }
        }
    }

    /// The logarithmic curves that a controller message leaves to evaluate:
    /// one for each entry of `map` that names `controller` and whose setting
    /// lands on such a curve, in the order of the table.
    pub open spec fn pending_controls(
        self,
        map: Seq<(u8, ControlParam)>,
        controller: u8,
        num: int,
        den: int,
    ) -> Seq<(ControlParam, LandingSpec)>
        decreases map.len(),
    {
        if map.len() == 0 {
            Seq::empty()
        } else {
            let before = self.pending_controls(map.drop_last(), controller, num, den);
            let state = self.after_controller(map.drop_last(), controller, num, den);
            let landing = state.control_landing(map.last().1, num, den);
            if map.last().0 == controller && landing is Log {
                before.push((map.last().1, landing))
            } else {
                before
            }
        }
    }

    /// The position that the value of a controller message stands for:
    /// `value / 127`, and one for a value above 127.
    pub open spec fn controller_level(value: u8) -> int {
        if value > 127 {
            127
        } else {
            value as int
        }
    }

    /// Applies a controller message: every entry of the table that names
    /// `controller` moves its setting to the position `value / 127` of its
    /// range. The logarithmic curves met on the way are returned; their
    /// settings are left as they were.
    pub fn apply_controller(&mut self, controller: u8, value: u8) -> (pending: Vec<PendingControl>)
        ensures
            *final(self) == old(self).after_controller(
                old(self).midi_cc_map@,
                controller,
                Self::controller_level(value),
                127,
            ),
            pending@.len() == old(self).pending_controls(
                old(self).midi_cc_map@,
                controller,
                Self::controller_level(value),
                127,
            ).len(),
            forall|i: int|
                0 <= i < pending@.len() ==> (#[trigger] pending@[i]).spec() == old(
                    self,
                ).pending_controls(
                    old(self).midi_cc_map@,
                    controller,
                    Self::controller_level(value),
                    127,
                )[i],
    {
        let level: u8 = if value > 127 {
            127
        } else {
            value
        };
        let pos = Fraction::new(level as u64, 127).unwrap();
        let ghost map = self.midi_cc_map@;
        let ghost num = pos.num();
        let ghost den = pos.den();
        let mut pending: Vec<PendingControl> = Vec::new();
        let n = self.midi_cc_map.len();
        let mut i: usize = 0;
        while i < n
            invariant
                i <= n,
                n == map.len(),
                map == old(self).midi_cc_map@,
                self.midi_cc_map@ == map,
                num == Self::controller_level(value),
                den == 127,
                pos.num() == num,
                pos.den() == den,
                *self == old(self).after_controller(map.take(i as int), controller, num, den),
                pending@.len() == old(self).pending_controls(
                    map.take(i as int),
                    controller,
                    num,
                    den,
                ).len(),
                forall|k: int|
                    0 <= k < pending@.len() ==> (#[trigger] pending@[k]).spec() == old(
                        self,
                    ).pending_controls(map.take(i as int), controller, num, den)[k],
            decreases n - i,
        {
            let (cc, target) = self.midi_cc_map[i];
            proof {
                assert(map.take(i + 1).drop_last() =~= map.take(i as int));
                assert(map.take(i + 1).last() == map[i as int]);
            }
            if cc == controller {
                match self.set_control_normalized(target, pos) {
                    Some(point) => {
                        pending.push(PendingControl { target, point });
                    },
                    None => {},
                }
            }
            i = i + 1;
        }
        proof {
            assert(map.take(n as int) =~= map);
        }
        pending
    }

    /// The two settings hold the same.
    pub open spec fn agrees(self, other: EmitterParams) -> bool {
        &&& self.midi_cc_map@ == other.midi_cc_map@
        &&& self.key_mode == other.key_mode
        &&& self.num_slices == other.num_slices
        &&& self.position == other.position
        &&& self.spray == other.spray
        &&& self.length == other.length
        &&& self.density == other.density
        &&& self.grain_envelope == other.grain_envelope
        &&& self.note_envelope == other.note_envelope
        &&& self.polyphony == other.polyphony
        &&& self.transpose == other.transpose
        &&& self.amplitude == other.amplitude
    }

    /// The settings an emitter starts with.
    pub open spec fn is_default(self) -> bool {
        &&& self.midi_cc_map@.len() == 0
        &&& self.key_mode == KeyMode::Pitch
        &&& self.num_slices@ == (ParameterView::<u8> {
            value: 12,
            min: 1,
            max: 127,
            logarithmic: false,
            smallest_positive: 1,
        })
        &&& self.position@ == (ParameterView::<u32> {
            value: 0,
            min: 0,
            max: UNITY,
            logarithmic: false,
            smallest_positive: 1,
        })
        &&& self.spray@ == (ParameterView::<u64> {
            value: 0,
            min: 0,
            max: 1_000_000_000,
            logarithmic: true,
            smallest_positive: 1000,
        })
        &&& self.length@ == (ParameterView::<u64> {
            value: 100_000_000,
            min: 0,
            max: 1_000_000_000,
            logarithmic: true,
            smallest_positive: 1000,
        })
        &&& self.density@ == (ParameterView::<u32> {
            value: 10_000,
            min: 1000,
            max: 100_000,
            logarithmic: true,
            smallest_positive: 1,
        })
        &&& self.grain_envelope.amount@ == (ParameterView::<u32> {
            value: 32768,
            min: 0,
            max: UNITY,
            logarithmic: false,
            smallest_positive: 1,
        })
        &&& self.grain_envelope.skew@ == (ParameterView::<i32> {
            value: 0,
            min: -65536i32,
            max: 65536,
            logarithmic: false,
            smallest_positive: 1,
        })
        &&& self.note_envelope.attack@ == (ParameterView::<u64> {
            value: 0,
            min: 0,
            max: 10_000_000_000,
            logarithmic: true,
            smallest_positive: 1000,
        })
        &&& self.note_envelope.decay@ == (ParameterView::<u64> {
            value: 1_000_000_000,
            ..self.note_envelope.attack@
        })
        &&& self.note_envelope.release@ == (ParameterView::<u64> {
            value: 15_000_000,
            ..self.note_envelope.attack@
        })
        &&& self.note_envelope.sustain_level@ == (ParameterView::<u32> {
            value: UNITY,
            min: 0,
            max: UNITY,
            logarithmic: false,
            smallest_positive: 1,
        })
        &&& self.polyphony == 8
        &&& self.transpose@ == (ParameterView::<i32> {
            value: 0,
            min: -12i32,
            max: 12,
            logarithmic: false,
            smallest_positive: 1,
        })
        &&& self.amplitude@ == (ParameterView::<u32> {
            value: UNITY,
            min: 0,
            max: UNITY,
            logarithmic: false,
            smallest_positive: 1,
        })
    }
}

impl Clone for EmitterParams {
    fn clone(&self) -> (r: Self)
        ensures
            r.agrees(*self),
    {
        let mut midi_cc_map: MidiControlMap = Vec::new();
        let n = self.midi_cc_map.len();
        let mut i: usize = 0;
        while i < n
            invariant
                i <= n,
                n == self.midi_cc_map@.len(),
                midi_cc_map@ == self.midi_cc_map@.take(i as int),
            decreases n - i,
        {
            midi_cc_map.push(self.midi_cc_map[i]);
            assert(midi_cc_map@ =~= self.midi_cc_map@.take(i + 1));
            i = i + 1;
        }
        assert(self.midi_cc_map@.take(n as int) =~= self.midi_cc_map@);
        EmitterParams {
            midi_cc_map,
            key_mode: self.key_mode,
            num_slices: self.num_slices,
            position: self.position,
            spray: self.spray,
            length: self.length,
            density: self.density,
            grain_envelope: self.grain_envelope,
            note_envelope: self.note_envelope,
            polyphony: self.polyphony,
            transpose: self.transpose,
            amplitude: self.amplitude,
        }
    }
}

impl Default for EmitterParams {
    fn default() -> (p: Self)
        ensures
            p.is_default(),
    {
        EmitterParams {
            midi_cc_map: Vec::new(),
            key_mode: KeyMode::Pitch,
            num_slices: Parameter::new(12, RangeInclusive::new(1, 127)),
            position: Parameter::new(0, RangeInclusive::new(0, UNITY)),
            spray: Parameter::new(0, RangeInclusive::new(0, 1_000_000_000)).logarithmic(
                true,
            ).smallest_positive(1000),
            length: Parameter::new(100_000_000, RangeInclusive::new(0, 1_000_000_000)).logarithmic(
                true,
            ).smallest_positive(1000),
            density: Parameter::new(10_000, RangeInclusive::new(1000, 100_000)).logarithmic(true),
            grain_envelope: GrainEnvelope {
                amount: Parameter::new(32768, RangeInclusive::new(0, UNITY)),
                skew: Parameter::new(0, RangeInclusive::new(-65536, 65536)),
            },
            note_envelope: AdsrEnvelope::default(),
            polyphony: 8,
            transpose: Parameter::new(0, RangeInclusive::new(-12, 12)),
            amplitude: Parameter::new(UNITY, RangeInclusive::new(0, UNITY)),
        }
    }
}

impl EmitterParams {
    /// The shares of the clip at which grains can start, before any spray:
    /// the position in pitch mode, the start of every slice in slice mode.
    pub open spec fn playheads_of(self) -> Seq<u32> {
        match self.key_mode {
            KeyMode::Pitch => seq![self.position@.value],
            KeyMode::Slice => Seq::new(
                self.num_slices@.value as nat,
                |i: int| ((i * UNITY) / (self.num_slices@.value as int)) as u32,
            ),
        }
    }

    /// The shares of the clip at which grains can start, for display.
    pub fn playheads(&self) -> (heads: Vec<u32>)
        ensures
            heads@ == self.playheads_of(),
    {
        let mut heads: Vec<u32> = Vec::new();
        match self.key_mode {
            KeyMode::Pitch => {
                heads.push(self.position.get());
                assert(heads@ =~= self.playheads_of());
            },
            KeyMode::Slice => {
                let slices = self.num_slices.get();
                let mut i: u8 = 0;
                while i < slices
                    invariant
                        i <= slices,
                        slices == self.num_slices@.value,
                        heads@.len() == i,
                        forall|k: int|
                            0 <= k < i ==> #[trigger] heads@[k] == ((k * UNITY) / (
                            slices as int)) as u32,
                    decreases slices - i,
                {
                    heads.push(((i as u32) * UNITY) / (slices as u32));
                    i = i + 1;
                }
                assert(heads@ =~= self.playheads_of());
            },
        }
        heads
    }
}

} // verus!
