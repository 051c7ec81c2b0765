//! The numeric kinds a parameter can hold.

use vstd::prelude::*;

verus! {

/// `num` limited to the interval from `low` to `high`.
pub open spec fn clamp(num: int, low: int, high: int) -> int {
    if num < low {
        low
    } else if num > high {
        high
    } else {
        num
    }
}

/// An integer kind of at most 64 bits.
///
/// A parameter maps between such a value and a position in `[0, 1]`; the
/// arithmetic of that mapping is done on the mathematical value.
pub trait Numeric: Copy + Sized {
    /// The mathematical value.
    spec fn as_int(self) -> int;

    /// Smallest value of the kind.
    spec fn lowest() -> int;

    /// Largest value of the kind.
    spec fn highest() -> int;

    /// Every value lies between the two bounds, and the bounds span at most
    /// 64 bits.
    proof fn bounded(self)
        ensures
            Self::lowest() <= self.as_int() <= Self::highest(),
            i64::MIN <= Self::lowest() <= 0,
            0 < Self::highest() <= u64::MAX,
            Self::highest() - Self::lowest() <= u64::MAX,
    ;

    /// The value of the kind that stands for `num`.
    spec fn of_int(num: int) -> Self;

    /// `of_int` undoes `as_int`, and `as_int` undoes `of_int` within the
    /// bounds of the kind.
    proof fn inverse(self, num: int)
        ensures
            Self::of_int(self.as_int()) == self,
            Self::lowest() <= num <= Self::highest() ==> Self::of_int(num).as_int() == num,
    ;

    /// The value, widened.
    fn to_i128(self) -> (r: i128)
        ensures
            r == self.as_int(),
    ;

    /// The value of this kind nearest to `num`.
    fn from_i128(num: i128) -> (r: Self)
        ensures
            r == Self::of_int(clamp(num as int, Self::lowest(), Self::highest())),
            r.as_int() == clamp(num as int, Self::lowest(), Self::highest()),
    ;
}

impl Numeric for u8 {
    open spec fn as_int(self) -> int {
        self as int
    }

    open spec fn lowest() -> int {
        0
    }

    open spec fn highest() -> int {
        u8::MAX as int
    }

    proof fn bounded(self) {
    }

    open spec fn of_int(num: int) -> Self {
        num as u8
    }

    proof fn inverse(self, num: int) {
    }

    fn to_i128(self) -> (r: i128) {
        self as i128
    }

    fn from_i128(num: i128) -> (r: Self) {
        if num < 0 {
            0
        } else if num > u8::MAX as i128 {
            u8::MAX
        } else {
            num as u8
        }
    }
}

impl Numeric for u16 {
    open spec fn as_int(self) -> int {
        self as int
    }

    open spec fn lowest() -> int {
        0
    }

    open spec fn highest() -> int {
        u16::MAX as int
    }

    proof fn bounded(self) {
    }

    open spec fn of_int(num: int) -> Self {
        num as u16
    }

    proof fn inverse(self, num: int) {
    }

    fn to_i128(self) -> (r: i128) {
        self as i128
    }

    fn from_i128(num: i128) -> (r: Self) {
        if num < 0 {
            0
        } else if num > u16::MAX as i128 {
            u16::MAX
        } else {
            num as u16
        }
    }
}

impl Numeric for u32 {
    open spec fn as_int(self) -> int {
        self as int
    }

    open spec fn lowest() -> int {
        0
    }

    open spec fn highest() -> int {
        u32::MAX as int
    }

    proof fn bounded(self) {
    }

    open spec fn of_int(num: int) -> Self {
        num as u32
    }

    proof fn inverse(self, num: int) {
    }

    fn to_i128(self) -> (r: i128) {
        self as i128
    }

    fn from_i128(num: i128) -> (r: Self) {
        if num < 0 {
            0
        } else if num > u32::MAX as i128 {
            u32::MAX
        } else {
            num as u32
        }
    }
}

impl Numeric for u64 {
    open spec fn as_int(self) -> int {
        self as int
    }

    open spec fn lowest() -> int {
        0
    }

    open spec fn highest() -> int {
        u64::MAX as int
    }

    proof fn bounded(self) {
    }

    open spec fn of_int(num: int) -> Self {
        num as u64
    }

    proof fn inverse(self, num: int) {
    }

    fn to_i128(self) -> (r: i128) {
        self as i128
    }

    fn from_i128(num: i128) -> (r: Self) {
        if num < 0 {
            0
        } else if num > u64::MAX as i128 {
            u64::MAX
        } else {
            num as u64
        }
    }
}

impl Numeric for usize {
    open spec fn as_int(self) -> int {
        self as int
    }

    open spec fn lowest() -> int {
        0
    }

    open spec fn highest() -> int {
        usize::MAX as int
    }

    proof fn bounded(self) {
    }

    open spec fn of_int(num: int) -> Self {
        num as usize
    }

    proof fn inverse(self, num: int) {
    }

    fn to_i128(self) -> (r: i128) {
        self as i128
    }

    fn from_i128(num: i128) -> (r: Self) {
        if num < 0 {
            0
        } else if num > usize::MAX as i128 {
            usize::MAX
        } else {
            num as usize
        }
    }
}

impl Numeric for i8 {
    open spec fn as_int(self) -> int {
        self as int
    }

    open spec fn lowest() -> int {
        i8::MIN as int
    }

    open spec fn highest() -> int {
        i8::MAX as int
    }

    proof fn bounded(self) {
    }

    open spec fn of_int(num: int) -> Self {
        num as i8
    }

    proof fn inverse(self, num: int) {
    }

    fn to_i128(self) -> (r: i128) {
        self as i128
    }

    fn from_i128(num: i128) -> (r: Self) {
        if num < i8::MIN as i128 {
            i8::MIN
        } else if num > i8::MAX as i128 {
            i8::MAX
        } else {
            num as i8
        }
    }
}

impl Numeric for i16 {
    open spec fn as_int(self) -> int {
        self as int
    }

    open spec fn lowest() -> int {
        i16::MIN as int
    }

    open spec fn highest() -> int {
        i16::MAX as int
    }

    proof fn bounded(self) {
    }

    open spec fn of_int(num: int) -> Self {
        num as i16
    }

    proof fn inverse(self, num: int) {
    }

    fn to_i128(self) -> (r: i128) {
        self as i128
    }

    fn from_i128(num: i128) -> (r: Self) {
        if num < i16::MIN as i128 {
            i16::MIN
        } else if num > i16::MAX as i128 {
            i16::MAX
        } else {
            num as i16
        }
    }
}

impl Numeric for i32 {
    open spec fn as_int(self) -> int {
        self as int
    }

    open spec fn lowest() -> int {
        i32::MIN as int
    }

    open spec fn highest() -> int {
        i32::MAX as int
    }

    proof fn bounded(self) {
    }

    open spec fn of_int(num: int) -> Self {
        num as i32
    }

    proof fn inverse(self, num: int) {
    }

    fn to_i128(self) -> (r: i128) {
        self as i128
    }

    fn from_i128(num: i128) -> (r: Self) {
        if num < i32::MIN as i128 {
            i32::MIN
        } else if num > i32::MAX as i128 {
            i32::MAX
        } else {
            num as i32
        }
    }
}

impl Numeric for i64 {
    open spec fn as_int(self) -> int {
        self as int
    }

    open spec fn lowest() -> int {
        i64::MIN as int
    }

    open spec fn highest() -> int {
        i64::MAX as int
    }

    proof fn bounded(self) {
    }

    open spec fn of_int(num: int) -> Self {
        num as i64
    }

    proof fn inverse(self, num: int) {
    }

    fn to_i128(self) -> (r: i128) {
        self as i128
    }

    fn from_i128(num: i128) -> (r: Self) {
        if num < i64::MIN as i128 {
            i64::MIN
        } else if num > i64::MAX as i128 {
            i64::MAX
        } else {
            num as i64
        }
    }
}

impl Numeric for isize {
    open spec fn as_int(self) -> int {
        self as int
    }

    open spec fn lowest() -> int {
        isize::MIN as int
    }

    open spec fn highest() -> int {
        isize::MAX as int
    }

    proof fn bounded(self) {
    }

    open spec fn of_int(num: int) -> Self {
        num as isize
    }

    proof fn inverse(self, num: int) {
    }

    fn to_i128(self) -> (r: i128) {
        self as i128
    }

    fn from_i128(num: i128) -> (r: Self) {
        if num < isize::MIN as i128 {
            isize::MIN
        } else if num > isize::MAX as i128 {
            isize::MAX
        } else {
            num as isize
        }
    }
}

} // verus!
