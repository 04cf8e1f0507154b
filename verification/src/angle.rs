//! Angles in degrees, as they travel on the remote link.
//!
//! A setpoint is an IEEE-754 single-precision number. The control core never computes with
//! it in floating point: it keeps the 32-bit pattern, orders patterns by the number they
//! stand for, and reads the number as an exact integer multiple of 2^-149 degree, the
//! weight of the lowest bit of the smallest subnormal.

use vstd::arithmetic::mul::*;
use vstd::arithmetic::power2::*;
use vstd::prelude::*;

verus! {

/// The sign bit of a pattern.
pub const SIGN_BIT: u32 = 0x8000_0000;

/// The pattern of positive infinity; a larger magnitude is not a number.
pub const INFINITY_BITS: u32 = 0x7f80_0000;

/// The weight of the exponent field within the magnitude: two to the 23rd.
pub const FRACTION_SPAN: u32 = 0x0080_0000;

/// The pattern of zero degrees.
pub const ZERO_BITS: u32 = 0x0000_0000;

/// The pattern of 45 degrees.
pub const DEG_45_BITS: u32 = 0x4234_0000;

/// The pattern of 90 degrees.
pub const DEG_90_BITS: u32 = 0x42b4_0000;

/// The pattern of -45 degrees.
pub const NEG_45_BITS: u32 = 0xc234_0000;

/// The pattern of -90 degrees.
pub const NEG_90_BITS: u32 = 0xc2b4_0000;

/// `n` whole degrees, counted in units of 2^-149 degree.
pub open spec fn degrees(n: int) -> int {
    n * pow2(149)
}

/// The number that a magnitude (a pattern without its sign bit) stands for, in units of
/// 2^-149 degree: the significand times two to the exponent. An exponent field of zero
/// marks a subnormal, which has no implicit leading bit and the exponent of field one.
pub open spec fn magnitude_units(magnitude: int) -> int {
    let field = magnitude / (FRACTION_SPAN as int);
    let fraction = magnitude % (FRACTION_SPAN as int);
    if field == 0 {
        fraction
    } else {
        (FRACTION_SPAN + fraction) * pow2((field - 1) as nat)
    }
}

/// An angle in degrees: the bit pattern of a single-precision number.
///
/// Two angles are equal when their patterns are, so the two zeros differ.
#[derive(Clone, Copy, Debug, PartialEq, Eq, Structural)]
pub struct Angle {
    pub bits: u32,
}

impl Angle {
    /// The pattern without its sign bit.
    pub open spec fn magnitude(self) -> int {
        if self.bits >= SIGN_BIT {
            self.bits - SIGN_BIT
        } else {
            self.bits as int
        }
    }

    /// The sign bit is set.
    pub open spec fn is_negative(self) -> bool {
        self.bits >= SIGN_BIT
    }

    /// The pattern is not a number.
    pub open spec fn is_nan(self) -> bool {
        self.magnitude() > INFINITY_BITS
    }

    /// The angle in units of 2^-149 degree. Infinities count as the next power of two
    /// beyond the largest finite number.
    pub open spec fn units(self) -> int {
        if self.is_negative() {
            -magnitude_units(self.magnitude())
        } else {
            magnitude_units(self.magnitude())
        }
    }

    /// The signed magnitude: an integer that orders patterns as `units` orders them.
    pub open spec fn rank(self) -> int {
        if self.is_negative() {
            -self.magnitude()
        } else {
            self.magnitude()
        }
    }

    /// `self > other` as numbers: false whenever one of them is not a number.
    pub open spec fn exceeds(self, other: Angle) -> bool {
        !self.is_nan() && !other.is_nan() && self.units() > other.units()
    }

    /// The angle saturated to `[lo, hi]`: `hi` if it exceeds `hi`, `lo` if `lo` exceeds it,
    /// else itself. What is not a number stays as it is.
    pub open spec fn clamped(self, lo: Angle, hi: Angle) -> Angle {
        if self.exceeds(hi) {
            hi
        } else if lo.exceeds(self) {
            lo
        } else {
            self
        }
    }

    /// `lo` and `hi` are numbers and `lo` is not above `hi`.
    pub open spec fn bounds(lo: Angle, hi: Angle) -> bool {
        !lo.is_nan() && !hi.is_nan() && lo.units() <= hi.units()
    }

    /// The angle with the given pattern.
    pub fn from_bits(bits: u32) -> (angle: Angle)
        ensures
            angle.bits == bits,
    {
        Angle { bits }
    }

    /// The angle's pattern.
    pub fn to_bits(self) -> (bits: u32)
        ensures
            bits == self.bits,
    {
        self.bits
    }

    /// Tells whether the pattern is not a number.
    pub fn not_a_number(self) -> (nan: bool)
        ensures
            nan == self.is_nan(),
    {
        self.abs_bits() > INFINITY_BITS
    }

    /// The pattern without its sign bit.
    pub fn abs_bits(self) -> (magnitude: u32)
        ensures
            magnitude == self.magnitude(),
    {
        if self.bits >= SIGN_BIT {
            self.bits - SIGN_BIT
        } else {
            self.bits
        }
    }

    /// The signed magnitude, by which angles are compared.
    pub fn sort_key(self) -> (key: i64)
        ensures
            key == self.rank(),
    {
        let magnitude: i64 = self.abs_bits() as i64;
        if self.bits >= SIGN_BIT {
            -magnitude
        } else {
            magnitude
        }
    }

    /// Tells whether `self > other` as numbers.
    pub fn is_above(self, other: Angle) -> (above: bool)
        ensures
            above == self.exceeds(other),
    {
        proof {
            lemma_rank_orders_units(self, other);
        }
        !self.not_a_number() && !other.not_a_number() && self.sort_key() > other.sort_key()
    }

    /// Saturates the angle to `[lo, hi]`.
    pub fn clamp(self, lo: Angle, hi: Angle) -> (angle: Angle)
        ensures
            angle == self.clamped(lo, hi),
    {
        if self.is_above(hi) {
            hi
        } else if lo.is_above(self) {
            lo
        } else {
            self
        }
    }
}

/// A number saturated to `[lo, hi]` lies in `[lo, hi]`.
pub proof fn lemma_clamped_in_bounds(angle: Angle, lo: Angle, hi: Angle)
    requires
        Angle::bounds(lo, hi),
        !angle.is_nan(),
    ensures
        !angle.clamped(lo, hi).is_nan(),
        lo.units() <= angle.clamped(lo, hi).units() <= hi.units(),
{
}

/// Saturating twice is saturating once.
pub proof fn lemma_clamped_idempotent(angle: Angle, lo: Angle, hi: Angle)
    requires
        Angle::bounds(lo, hi),
    ensures
        angle.clamped(lo, hi).clamped(lo, hi) == angle.clamped(lo, hi),
{
}

/// Saturating keeps the order of numbers.
pub proof fn lemma_clamped_monotone(a: Angle, b: Angle, lo: Angle, hi: Angle)
    requires
        Angle::bounds(lo, hi),
        !a.is_nan(),
        !b.is_nan(),
        a.units() <= b.units(),
    ensures
        a.clamped(lo, hi).units() <= b.clamped(lo, hi).units(),
{
}

/// The named patterns stand for the whole degrees that their names give.
pub proof fn lemma_named_angles()
    ensures
        (Angle { bits: ZERO_BITS }).units() == degrees(0),
        (Angle { bits: DEG_45_BITS }).units() == degrees(45),
        (Angle { bits: DEG_90_BITS }).units() == degrees(90),
        (Angle { bits: NEG_45_BITS }).units() == degrees(-45),
        (Angle { bits: NEG_90_BITS }).units() == degrees(-90),
        !(Angle { bits: ZERO_BITS }).is_nan(),
        !(Angle { bits: DEG_45_BITS }).is_nan(),
        !(Angle { bits: DEG_90_BITS }).is_nan(),
        !(Angle { bits: NEG_45_BITS }).is_nan(),
        !(Angle { bits: NEG_90_BITS }).is_nan(),
{
    lemma2_to64();
    // 45 = 0xb40000 * 2^131 / 2^149 and 90 = 0xb40000 * 2^132 / 2^149
    lemma_pow2_adds(18, 131);
    lemma_pow2_adds(17, 132);
    let p131 = pow2(131) as int;
    let p132 = pow2(132) as int;
    assert(0xb4_0000 * p131 == 45 * (0x4_0000 * p131)) by (nonlinear_arith);
    assert(0xb4_0000 * p132 == 90 * (0x2_0000 * p132)) by (nonlinear_arith);
    assert(-(45 * pow2(149)) == (-45) * pow2(149)) by (nonlinear_arith);
    assert(-(90 * pow2(149)) == (-90) * pow2(149)) by (nonlinear_arith);
}

/// A larger magnitude stands for a larger number.
pub proof fn lemma_magnitude_units_increase(a: int, b: int)
    requires
        0 <= a < b,
    ensures
        0 <= magnitude_units(a) < magnitude_units(b),
{
    let span = FRACTION_SPAN as int;
    let (fa, ra) = (a / span, a % span);
    let (fb, rb) = (b / span, b % span);
    assert(fa <= fb) by {
        vstd::arithmetic::div_mod::lemma_div_is_ordered(a, b, span);
    }
    if fa == fb {
        if fa > 0 {
            lemma_pow2_pos((fa - 1) as nat);
            lemma_mul_strict_inequality(span + ra, span + rb, pow2((fa - 1) as nat) as int);
            lemma_mul_strictly_positive(span + ra, pow2((fa - 1) as nat) as int);
        }
    } else if fa == 0 {
        // a is subnormal and b is not: a's units stay below the span.
        lemma_pow2_pos((fb - 1) as nat);
        lemma_mul_inequality(1, pow2((fb - 1) as nat) as int, span + rb);
    } else {
        let pa = pow2((fa - 1) as nat) as int;
        let pb = pow2((fb - 1) as nat) as int;
        lemma_pow2_pos((fa - 1) as nat);
        assert(2 * pa <= pb) by {
            lemma_pow2_unfold(fa as nat);
            if fa < fb - 1 {
                lemma_pow2_strictly_increases(fa as nat, (fb - 1) as nat);
            }
        }
        // (span + ra) * pa < 2 * span * pa <= span * pb <= (span + rb) * pb
        lemma_mul_strictly_positive(span + ra, pa);
        lemma_mul_strict_inequality(span + ra, 2 * span, pa);
        lemma_mul_inequality(2 * pa, pb, span);
        lemma_mul_inequality(span, span + rb, pb);
        assert((2 * span) * pa == (2 * pa) * span) by (nonlinear_arith);
        assert(span * pb == pb * span) by (nonlinear_arith);
    }
}

/// The signed magnitudes of two patterns compare as the numbers do.
pub proof fn lemma_rank_orders_units(a: Angle, b: Angle)
    ensures
        a.rank() < b.rank() <==> a.units() < b.units(),
        a.rank() == b.rank() <==> a.units() == b.units(),
{
    let (ma, mb) = (a.magnitude(), b.magnitude());
    if ma < mb {
        lemma_magnitude_units_increase(ma, mb);
    } else if mb < ma {
        lemma_magnitude_units_increase(mb, ma);
    }
    if ma > 0 {
        lemma_magnitude_units_increase(0, ma);
    }
    if mb > 0 {
        lemma_magnitude_units_increase(0, mb);
    }
}

} // verus!
