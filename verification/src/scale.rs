//! Range rescaling between bounded integer domains.
//!
//! A [`Scaler`] maps a sample from a source range `[min_src, max_src]` into a
//! destination range `[min_dest, max_dest]`. The transform runs in three
//! stages: a saturating subtraction that shifts the sample against the source
//! minimum, a floating-point normalisation and re-expansion, and a saturating
//! addition that shifts the interpolated value against the destination
//! minimum. The integer stages are verified here with exact contracts; the
//! floating-point stage in the middle is a pure function of the three
//! integers these stages produce and is carried out by the caller.

use vstd::prelude::*;

verus! {

/// Clamps the integer `v` to the closed interval `[lo, hi]`.
pub open spec fn clamp_to(v: int, lo: int, hi: int) -> int {
    if v < lo {
        lo
    } else if v > hi {
        hi
    } else {
        v
    }
}

/// A fixed-width integer type that can serve as a range endpoint: it knows
/// its representable bounds and offers subtraction and addition that
/// saturate at those bounds instead of wrapping.
pub trait ScaleEndpoint: Copy {
    /// The mathematical integer this value stands for.
    spec fn to_int(self) -> int;

    /// The smallest representable value of the type.
    spec fn type_min() -> int;

    /// The largest representable value of the type.
    spec fn type_max() -> int;

    /// Every value lies within the type's bounds, and the bounds straddle
    /// zero.
    proof fn bounds(self)
        ensures
            Self::type_min() <= self.to_int() <= Self::type_max(),
            Self::type_min() <= 0 < Self::type_max(),
    ;

    /// Subtraction clamped at the type's representable bounds.
    fn sat_sub(self, rhs: Self) -> (r: Self)
        ensures
            r.to_int() == clamp_to(self.to_int() - rhs.to_int(), Self::type_min(), Self::type_max()),
    ;

    /// Addition clamped at the type's representable bounds.
    fn sat_add(self, rhs: Self) -> (r: Self)
        ensures
            r.to_int() == clamp_to(self.to_int() + rhs.to_int(), Self::type_min(), Self::type_max()),
    ;
}

impl ScaleEndpoint for u16 {
    open spec fn to_int(self) -> int {
        self as int
    }

    open spec fn type_min() -> int {
        0
    }

    open spec fn type_max() -> int {
        u16::MAX as int
    }

    proof fn bounds(self) {
    }

    fn sat_sub(self, rhs: Self) -> (r: Self) {
        self.saturating_sub(rhs)
    }

    fn sat_add(self, rhs: Self) -> (r: Self) {
        self.saturating_add(rhs)
    }
}

impl ScaleEndpoint for u32 {
    open spec fn to_int(self) -> int {
        self as int
    }

    open spec fn type_min() -> int {
        0
    }

    open spec fn type_max() -> int {
        u32::MAX as int
    }

    proof fn bounds(self) {
    }

    fn sat_sub(self, rhs: Self) -> (r: Self) {
        self.saturating_sub(rhs)
    }

    fn sat_add(self, rhs: Self) -> (r: Self) {
        self.saturating_add(rhs)
    }
}

impl ScaleEndpoint for i16 {
    open spec fn to_int(self) -> int {
        self as int
    }

    open spec fn type_min() -> int {
        i16::MIN as int
    }

    open spec fn type_max() -> int {
        i16::MAX as int
    }

    proof fn bounds(self) {
    }

    fn sat_sub(self, rhs: Self) -> (r: Self) {
        match self.checked_sub(rhs) {
            Some(d) => d,
            None => if rhs < 0 {
                i16::MAX
            } else {
                i16::MIN
            },
        }
    }

    fn sat_add(self, rhs: Self) -> (r: Self) {
        match self.checked_add(rhs) {
            Some(s) => s,
            None => if rhs < 0 {
                i16::MIN
            } else {
                i16::MAX
            },
        }
    }
}

impl ScaleEndpoint for i32 {
    open spec fn to_int(self) -> int {
        self as int
    }

    open spec fn type_min() -> int {
        i32::MIN as int
    }

    open spec fn type_max() -> int {
        i32::MAX as int
    }

    proof fn bounds(self) {
    }

    fn sat_sub(self, rhs: Self) -> (r: Self) {
        match self.checked_sub(rhs) {
            Some(d) => d,
            None => if rhs < 0 {
                i32::MAX
            } else {
                i32::MIN
            },
        }
    }

    fn sat_add(self, rhs: Self) -> (r: Self) {
        match self.checked_add(rhs) {
            Some(s) => s,
            None => if rhs < 0 {
                i32::MIN
            } else {
                i32::MAX
            },
        }
    }
}

/// A coordinate transformation from a source range `[min_src, max_src]` to a
/// destination range `[min_dest, max_dest]`.
///
/// The scaler is a plain data holder: construction performs no validation,
/// and callers who need defined behaviour are expected to supply
/// `min <= max` for both ranges. Inverted or zero-width ranges degrade to
/// clamped or degenerate results but never to a panic.
#[derive(Clone, Copy)]
pub struct Scaler<S: Copy, D: Copy> {
    /// Minimum of the source range.
    pub min_src: S,
    /// Maximum of the source range.
    pub max_src: S,
    /// Minimum of the destination range.
    pub min_dest: D,
    /// Maximum of the destination range.
    pub max_dest: D,
}

impl<S: ScaleEndpoint, D: ScaleEndpoint> Scaler<S, D> {
    /// What [`Self::numerator`] returns: the sample shifted against the
    /// source minimum, saturated at the source type's bounds.
    pub open spec fn numerator_spec(self, num: int) -> int {
        clamp_to(num - self.min_src.to_int(), S::type_min(), S::type_max())
    }

    /// What [`Self::denominator`] returns: the width of the source range,
    /// saturated at the source type's bounds.
    pub open spec fn denominator_spec(self) -> int {
        clamp_to(self.max_src.to_int() - self.min_src.to_int(), S::type_min(), S::type_max())
    }

    /// What [`Self::dest_span`] returns: the width of the destination range,
    /// saturated at the destination type's bounds.
    pub open spec fn dest_span_spec(self) -> int {
        clamp_to(self.max_dest.to_int() - self.min_dest.to_int(), D::type_min(), D::type_max())
    }

    /// What [`Self::finish`] returns: the interpolated value shifted back
    /// against the destination minimum, saturated at the destination type's
    /// bounds.
    pub open spec fn finish_spec(self, scaled: int) -> int {
        clamp_to(scaled + self.min_dest.to_int(), D::type_min(), D::type_max())
    }

    /// Constructs a new scaler.
    ///
    /// * `min_src` - minimum of the source range
    /// * `max_src` - maximum of the source range
    /// * `min_dest` - minimum of the output range
    /// * `max_dest` - maximum of the output range
    pub fn new(min_src: S, max_src: S, min_dest: D, max_dest: D) -> (r: Scaler<S, D>)
        ensures
            r == (Scaler { min_src, max_src, min_dest, max_dest }),
    {
        Scaler { min_src, max_src, min_dest, max_dest }
    }

    /// First stage of a scale: shifts the sample against the source minimum
    /// with a saturating subtraction.
    pub fn numerator(&self, num: S) -> (r: S)
        ensures
            r.to_int() == self.numerator_spec(num.to_int()),
    {
        num.sat_sub(self.min_src)
    }

    /// The width of the source range, by a saturating subtraction.
    pub fn denominator(&self) -> (r: S)
        ensures
            r.to_int() == self.denominator_spec(),
    {
        self.max_src.sat_sub(self.min_src)
    }

    /// The width of the destination range, by a saturating subtraction.
    pub fn dest_span(&self) -> (r: D)
        ensures
            r.to_int() == self.dest_span_spec(),
    {
        self.max_dest.sat_sub(self.min_dest)
    }

    /// Last stage of a scale: shifts the interpolated value back against the
    /// destination minimum with a saturating addition.
    pub fn finish(&self, scaled: D) -> (r: D)
        ensures
            r.to_int() == self.finish_spec(scaled.to_int()),
    {
        scaled.sat_add(self.min_dest)
    }

    /// Boundary exactness at the low end: a sample equal to `min_src` yields
    /// a numerator of exactly zero, and an interpolated value of exactly
    /// zero finishes at exactly `min_dest`. So a scale of `min_src` returns
    /// `min_dest` whenever the interpolation stage maps zero to zero, which
    /// it does for every non-degenerate source range.
    pub proof fn lemma_boundary_low(self)
        ensures
            self.numerator_spec(self.min_src.to_int()) == 0,
            self.finish_spec(0) == self.min_dest.to_int(),
    {
        self.min_src.bounds();
        self.min_dest.bounds();
    }

    /// Boundary exactness at the high end: a sample equal to `max_src`
    /// yields a numerator exactly equal to the denominator, and an
    /// interpolated value equal to the destination span finishes at exactly
    /// `max_dest` provided the span did not saturate. So a scale of
    /// `max_src` returns `max_dest` whenever the interpolation stage maps
    /// the full span to itself.
    pub proof fn lemma_boundary_high(self)
        requires
            self.min_dest.to_int() <= self.max_dest.to_int(),
            self.max_dest.to_int() - self.min_dest.to_int() <= D::type_max(),
        ensures
            self.numerator_spec(self.max_src.to_int()) == self.denominator_spec(),
            self.finish_spec(self.dest_span_spec()) == self.max_dest.to_int(),
    {
        self.min_dest.bounds();
        self.max_dest.bounds();
    }

    /// A non-degenerate source range survives the saturating subtraction:
    /// the denominator handed to the interpolation stage is positive, so
    /// its division is well defined.
    pub proof fn lemma_denominator_positive(self)
        requires
            self.min_src.to_int() < self.max_src.to_int(),
        ensures
            self.denominator_spec() > 0,
    {
        self.min_src.bounds();
    }

    /// Monotonicity of the first stage: a larger sample never yields a
    /// smaller numerator.
    pub proof fn lemma_numerator_monotone(self, a: int, b: int)
        requires
            a <= b,
        ensures
            self.numerator_spec(a) <= self.numerator_spec(b),
    {
        self.min_src.bounds();
    }

    /// Monotonicity of the last stage: a larger interpolated value never
    /// finishes at a smaller destination value.
    pub proof fn lemma_finish_monotone(self, u: int, v: int)
        requires
            u <= v,
        ensures
            self.finish_spec(u) <= self.finish_spec(v),
    {
        self.min_dest.bounds();
    }

    /// Saturation: whatever interpolated value the floating-point stage
    /// hands back, the finished result stays within the destination type's
    /// representable range; likewise the numerator stays within the source
    /// type's range for any sample. Underflow and overflow of the
    /// intermediate subtractions clamp instead of wrapping or panicking.
    pub proof fn lemma_saturation(self, num: int, scaled: int)
        ensures
            S::type_min() <= self.numerator_spec(num) <= S::type_max(),
            D::type_min() <= self.finish_spec(scaled) <= D::type_max(),
    {
        self.min_src.bounds();
        self.min_dest.bounds();
    }
}

} // verus!
