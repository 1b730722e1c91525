//! Fixed-point numbers: an `i64` counts steps of 2^-32, so `UNIT` is the number one.
//! Sums saturate at the ends of `i64`; quotients and products round toward zero.
use vstd::prelude::*;

verus! {

/// The number one.
pub const UNIT: i64 = 4294967296;

/// `v` brought into the range of `i64`.
pub open spec fn clamp(v: int) -> int {
    if v < i64::MIN {
        i64::MIN as int
    } else if v > i64::MAX {
        i64::MAX as int
    } else {
        v
    }
}

/// `a / b` rounded toward zero, for a positive `b`.
pub open spec fn quotient(a: int, b: int) -> int {
    if a >= 0 {
        a / b
    } else {
        -((-a) / b)
    }
}

/// The product of two fixed-point numbers, before it is brought into range.
pub open spec fn product(a: int, b: int) -> int {
    quotient(a * b, UNIT as int)
}

/// The saturating sum of two fixed-point numbers.
pub open spec fn sum(a: int, b: int) -> int {
    clamp(a + b)
}

/// The saturating product of two fixed-point numbers.
pub open spec fn scaled(a: int, b: int) -> int {
    clamp(product(a, b))
}

/// A vector in the plane.
#[derive(Clone, Copy, Debug, PartialEq, Eq, Structural)]
pub struct Vec2 {
    pub x: i64,
    pub y: i64,
}

/// Saturating sum.
pub fn plus(a: i64, b: i64) -> (r: i64)
    ensures
        r == sum(a as int, b as int),
{
    let s: i128 = a as i128 + b as i128;
    narrow(s)
}

/// Saturating difference.
pub fn minus(a: i64, b: i64) -> (r: i64)
    ensures
        r == clamp(a - b),
{
    let s: i128 = a as i128 - b as i128;
    narrow(s)
}

/// Saturating negation.
pub fn negate(a: i64) -> (r: i64)
    ensures
        r == clamp(-a),
{
    if a == i64::MIN {
        i64::MAX
    } else {
        -a
    }
}

/// Half of `a`, rounded toward zero.
pub fn half(a: i64) -> (r: i64)
    ensures
        r == quotient(a as int, 2),
{
    if a >= 0 {
        a / 2
    } else if a == i64::MIN {
        -4611686018427387904
    } else {
        -((-a) / 2)
    }
}

/// Saturating fixed-point product, rounded toward zero.
pub fn times(a: i64, b: i64) -> (r: i64)
    ensures
        r == scaled(a as int, b as int),
{
    let wide_a: i128 = a as i128;
    let wide_b: i128 = b as i128;
    assert(-0x4000_0000_0000_0000_0000_0000_0000_0000 <= wide_a * wide_b
        <= 0x4000_0000_0000_0000_0000_0000_0000_0000) by (nonlinear_arith)
        requires
            -0x8000_0000_0000_0000 <= wide_a <= 0x8000_0000_0000_0000,
            -0x8000_0000_0000_0000 <= wide_b <= 0x8000_0000_0000_0000,
    ;
    let p: i128 = wide_a * wide_b;
    let q: i128 = if p >= 0 {
        p / 4294967296
    } else {
        -((-p) / 4294967296)
    };
    narrow(q)
}

/// `v` brought into the range of `i64`.
pub fn narrow(v: i128) -> (r: i64)
    ensures
        r == clamp(v as int),
{
    if v < -9223372036854775808 {
        i64::MIN
    } else if v > 9223372036854775807 {
        i64::MAX
    } else {
        v as i64
    }
}


/// A product with a factor below one is no further from zero than the other factor,
/// and strictly nearer where that factor is positive.
pub proof fn lemma_product_of_fraction(f: int, e: int)
    requires
        0 <= f < UNIT,
    ensures
        e > 0 ==> 0 <= product(f, e) <= e - 1,
        e == 0 ==> product(f, e) == 0,
        e < 0 ==> e + 1 <= product(f, e) <= 0,
{
    let u = UNIT as int;
    if e > 0 {
        assert(0 <= f * e && f * e < u * e) by (nonlinear_arith)
            requires
                0 <= f < u,
                e > 0,
        ;
        assert((f * e) / u < e && 0 <= (f * e) / u) by (nonlinear_arith)
            requires
                0 <= f * e < u * e,
                u > 0,
        ;
    } else if e == 0 {
        assert(f * e == 0) by (nonlinear_arith)
            requires
                e == 0,
        ;
    } else {
        assert(f * e <= 0 && -(f * e) < u * (-e)) by (nonlinear_arith)
            requires
                0 <= f < u,
                e < 0,
        ;
        if f * e == 0 {
        } else {
            assert((-(f * e)) / u < -e && 0 <= (-(f * e)) / u) by (nonlinear_arith)
                requires
                    0 <= -(f * e) < u * (-e),
                    u > 0,
            ;
        }
    }
}

/// A product with a factor between minus one and one is no further from zero than
/// the other factor.
pub proof fn lemma_product_bounded(a: int, b: int)
    requires
        -UNIT <= a <= UNIT,
    ensures
        b >= 0 ==> -b <= product(a, b) <= b,
        b < 0 ==> b <= product(a, b) <= -b,
{
    let u = UNIT as int;
    let m = if b >= 0 {
        b
    } else {
        -b
    };
    let v = a * b;
    assert(-(u * m) <= v <= u * m) by (nonlinear_arith)
        requires
            -u <= a <= u,
            m == b || m == -b,
            m >= 0,
            v == a * b,
    ;
    if v >= 0 {
        assert(0 <= v / u <= m) by (nonlinear_arith)
            requires
                0 <= v <= u * m,
                u > 0,
        ;
    } else {
        assert(0 <= (-v) / u <= m) by (nonlinear_arith)
            requires
                0 <= -v <= u * m,
                u > 0,
        ;
    }
}

} // verus!
