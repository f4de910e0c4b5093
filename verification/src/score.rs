//! Fractional values (confidences, importance scores) without floating point.
//!
//! A `Score` carries a finite `f64` by its order key: the IEEE-754 bit pattern
//! read as `i64`, with the low 63 bits flipped when the sign bit is set, and
//! negative zero read as positive zero. The key order is the numeric order of
//! the values, so every comparison the library makes against a threshold is
//! the comparison the number itself would give.
use vstd::prelude::*;

verus! {

/// A finite fractional value, compared through its order key.
#[derive(Debug, Clone, Copy, PartialEq, Eq, Structural)]
pub struct Score {
    pub key: i64,
}

/// Key of `0.0`.
pub const KEY_ZERO: i64 = 0;

/// Key of `0.25`.
pub const KEY_QUARTER: i64 = 0x3FD0_0000_0000_0000;

/// Key of `0.5`.
pub const KEY_HALF: i64 = 0x3FE0_0000_0000_0000;

/// Key of `0.8`.
pub const KEY_FOUR_FIFTHS: i64 = 0x3FE9_9999_9999_999A;

/// Key of `1.0`.
pub const KEY_ONE: i64 = 0x3FF0_0000_0000_0000;

/// Key of positive infinity; the keys of finite values lie strictly between
/// this and `KEY_NEG_INF`.
pub const KEY_POS_INF: i64 = 0x7FF0_0000_0000_0000;

/// Key of negative infinity.
pub const KEY_NEG_INF: i64 = -0x7FF0_0000_0000_0001;

/// Whether the key is that of a finite value.
pub open spec fn finite_key(s: Score) -> bool {
    KEY_NEG_INF < s.key && s.key < KEY_POS_INF
}

/// Whether the value lies in `[0, 1]` (`(0.0..=1.0).contains`): never for NaN.
pub open spec fn in_unit_range(s: Score) -> bool {
    KEY_ZERO <= s.key && s.key <= KEY_ONE
}

/// Whether the key is that of a NaN: beyond the keys of the infinities.
pub open spec fn is_nan_key(s: Score) -> bool {
    s.key > KEY_POS_INF || s.key < KEY_NEG_INF
}

/// `value < bound` on `f64`, for the non-NaN value keyed `bound`: false
/// for a NaN.
pub open spec fn less_than(s: Score, bound: i64) -> bool {
    !is_nan_key(s) && s.key < bound
}

/// `value >= bound` on `f64`, for the non-NaN value keyed `bound`: false
/// for a NaN.
pub open spec fn at_least(s: Score, bound: i64) -> bool {
    !is_nan_key(s) && s.key >= bound
}

/// `value < 0.0 || value > 1.0` on `f64`: false for a NaN.
pub open spec fn outside_unit(s: Score) -> bool {
    !is_nan_key(s) && (s.key < KEY_ZERO || s.key > KEY_ONE)
}

impl Score {
    /// The value `0.0`, in specifications.
    pub open spec fn zero_value() -> Score {
        Score { key: KEY_ZERO }
    }

    /// The value `0.0`.
    pub fn zero() -> (s: Score)
        ensures
            s.key == KEY_ZERO,
    {
        Score { key: KEY_ZERO }
    }

    /// The value `0.5`.
    pub fn half() -> (s: Score)
        ensures
            s.key == KEY_HALF,
    {
        Score { key: KEY_HALF }
    }

    /// Whether the value is finite (`f64::is_finite`).
    pub fn is_finite(&self) -> (r: bool)
        ensures
            r == finite_key(*self),
    {
        KEY_NEG_INF < self.key && self.key < KEY_POS_INF
    }

    /// Whether the value lies in `[0, 1]`.
    pub fn is_unit(&self) -> (r: bool)
        ensures
            r == in_unit_range(*self),
    {
        KEY_ZERO <= self.key && self.key <= KEY_ONE
    }

    /// Whether the value is a NaN (`f64::is_nan`).
    pub fn is_nan(&self) -> (r: bool)
        ensures
            r == is_nan_key(*self),
    {
        self.key > KEY_POS_INF || self.key < KEY_NEG_INF
    }

    /// `value < bound`, for the non-NaN value whose key is `bound`.
    pub fn below(&self, bound: i64) -> (r: bool)
        ensures
            r == less_than(*self, bound),
    {
        !self.is_nan() && self.key < bound
    }

    /// `value >= bound`, for the non-NaN value whose key is `bound`.
    pub fn is_at_least(&self, bound: i64) -> (r: bool)
        ensures
            r == at_least(*self, bound),
    {
        !self.is_nan() && self.key >= bound
    }

    /// `value < 0.0 || value > 1.0`.
    pub fn is_outside_unit(&self) -> (r: bool)
        ensures
            r == outside_unit(*self),
    {
        !self.is_nan() && (self.key < KEY_ZERO || self.key > KEY_ONE)
    }

    /// The value clamped into `[0, 1]`, in specifications.
    pub open spec fn clamped_unit(self) -> Score {
        Score {
            key: if is_nan_key(self) {
                self.key
            } else if self.key < KEY_ZERO {
                KEY_ZERO
            } else if self.key > KEY_ONE {
                KEY_ONE
            } else {
                self.key
            },
        }
    }

    /// The value clamped into `[0, 1]`, as `f64::clamp(0.0, 1.0)` does: a NaN
    /// stays NaN.
    pub fn clamp_unit(&self) -> (s: Score)
        ensures
            s == self.clamped_unit(),
    {
        if self.is_nan() {
            *self
        } else if self.key < KEY_ZERO {
            Score { key: KEY_ZERO }
        } else if self.key > KEY_ONE {
            Score { key: KEY_ONE }
        } else {
            *self
        }
    }
}

} // verus!
