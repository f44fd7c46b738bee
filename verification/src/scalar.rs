//! Single-precision values, held as their bit patterns.
//!
//! The library moves such values about, orders them, and rounds whole numbers and their reciprocals
//! to them; other arithmetic is the host's. A host converts with `f32::to_bits` and
//! `f32::from_bits`.

use vstd::arithmetic::div_mod::lemma_fundamental_div_mod;
use vstd::arithmetic::power2::{
    lemma2_to64, lemma_pow2_adds, lemma_pow2_pos, lemma_pow2_strictly_increases, lemma_pow2_unfold,
    pow2,
};
use vstd::prelude::*;

verus! {

/// An IEEE 754 binary32 value, named by its bit pattern.
///
/// The derived `==` compares bit patterns. For the equality of the numbers they stand for, under
/// which the two zeros are equal and no NaN equals anything, use [`Scalar::same`].
#[derive(Clone, Copy, Debug, PartialEq, Eq, Hash, Structural)]
pub struct Scalar {
    pub bits: u32,
}

/// The bit that separates negative patterns from positive ones.
pub const SIGN_BIT: u32 = 0x8000_0000;

/// The pattern of positive infinity; a larger magnitude is not a number.
pub const INFINITY_BITS: u32 = 0x7F80_0000;

impl Scalar {
    /// The pattern without its sign.
    pub open spec fn magnitude(self) -> int {
        if self.bits >= SIGN_BIT {
            self.bits - SIGN_BIT
        } else {
            self.bits as int
        }
    }

    pub open spec fn is_nan(self) -> bool {
        self.magnitude() > INFINITY_BITS
    }

    /// An integer that orders as the value does. Both zeros have rank zero.
    pub open spec fn rank(self) -> int {
        if self.bits >= SIGN_BIT {
            -self.magnitude()
        } else {
            self.magnitude()
        }
    }

    /// `self < other`, false where either is not a number.
    pub open spec fn lt(self, other: Scalar) -> bool {
        !self.is_nan() && !other.is_nan() && self.rank() < other.rank()
    }

    /// `self == other` as numbers, false where either is not a number.
    pub open spec fn eq_value(self, other: Scalar) -> bool {
        !self.is_nan() && !other.is_nan() && self.rank() == other.rank()
    }

    /// The pattern stands for the whole number `n`: with biased exponent `e` and fraction `f`, its
    /// value is `(2^23 + f) * 2^(e - 150)`.
    pub open spec fn is_whole(self, n: nat) -> bool {
        if n == 0 {
            self.bits == 0
        } else {
            let e = self.bits / 0x80_0000;
            let f = self.bits % 0x80_0000;
            &&& 0 < e < 255
            &&& (0x80_0000 + f) * pow2(e as nat) == n * pow2(150)
        }
    }

    /// The biased exponent of a positive pattern.
    pub open spec fn exponent(self) -> nat {
        (self.bits / 0x80_0000) as nat
    }

    /// The digits of a positive pattern. With biased exponent `e`, its value is the digits times two
    /// to the power `e - 150`, where `e` is not zero.
    pub open spec fn significand(self) -> nat {
        if self.exponent() == 0 {
            (self.bits % 0x80_0000) as nat
        } else {
            (0x80_0000 + self.bits % 0x80_0000) as nat
        }
    }

    /// The larger value; of a number and a NaN, the number; of equals, the first.
    pub open spec fn max_of(self, other: Scalar) -> Scalar {
        if self.is_nan() || self.lt(other) {
            other
        } else {
            self
        }
    }

    /// The smaller value; of a number and a NaN, the number; of equals, the first.
    pub open spec fn min_of(self, other: Scalar) -> Scalar {
        if self.is_nan() || other.lt(self) {
            other
        } else {
            self
        }
    }

    pub fn from_bits(bits: u32) -> (r: Scalar)
        ensures
            r.bits == bits,
    {
        Scalar { bits }
    }

    pub fn to_bits(self) -> (bits: u32)
        ensures
            bits == self.bits,
    {
        self.bits
    }

    /// A whole number, rounded to the nearest value where it has more than 24 binary digits.
    pub fn from_whole(n: u32) -> (r: Scalar)
        ensures
            r == whole(n as nat),
    {
        if n == 0 {
            return Scalar { bits: 0 };
        }
        let d: u32 = count_digits(n as u64);
        proof {
            lemma2_to64();
            lemma_digits(n as nat);
            lemma_digits_bound(n as nat, 32);
        }
        let m: u64 = if d <= 24 {
            let scale: u64 = power_of_two(24 - d);
            proof {
                lemma_pow2_adds(d as nat, (24 - d) as nat);
                lemma_pow2_adds((d - 1) as nat, (24 - d) as nat);
                lemma_between(
                    n as nat,
                    pow2((d - 1) as nat),
                    pow2(d as nat),
                    pow2((24 - d) as nat),
                );
            }
            n as u64 * scale
        } else {
            let step: u64 = power_of_two(d - 24);
            let q = divide_to_nearest(n as u64, step);
            proof {
                lemma_pow2_adds((d - 24) as nat, 24);
                lemma_pow2_adds((d - 24) as nat, 23);
                lemma_nearest_range(n as nat, step as nat, 0x80_0000, 0x100_0000);
            }
            q
        };
        Scalar { bits: (126 + d) * 0x80_0000 + (m - 0x80_0000) as u32 }
    }

    /// The reciprocal of a whole number, rounded to the nearest value: infinity for zero.
    pub fn reciprocal_of_whole(n: u32) -> (r: Scalar)
        ensures
            r == reciprocal(n as nat),
    {
        if n == 0 {
            return Scalar { bits: INFINITY_BITS };
        }
        let v: u64 = round_whole(n);
        let d: u32 = count_digits(v);
        proof {
            lemma2_to64();
            lemma_pow2_unfold(33);
            lemma_digits(v as nat);
            lemma_digits_bound(v as nat, 33);
            lemma_pow2_unfold(64);
            lemma_pow2_adds((d - 1) as nat, 24);
            lemma_pow2_adds(d as nat, 23);
            lemma_pow2_strictly_increases((d + 23) as nat, 63);
        }
        let m: u64 = divide_to_nearest(power_of_two(d + 23), v);
        proof {
            assert(0x80_0000 * v <= pow2((d + 23) as nat)) by (nonlinear_arith)
                requires
                    v < pow2(d as nat),
                    pow2((d + 23) as nat) == pow2(d as nat) * 0x80_0000,
            ;
            assert(pow2((d + 23) as nat) <= 0x100_0000 * v) by (nonlinear_arith)
                requires
                    pow2((d - 1) as nat) <= v,
                    pow2((d + 23) as nat) == pow2((d - 1) as nat) * 0x100_0000,
            ;
            lemma_nearest_range(pow2((d + 23) as nat), v as nat, 0x80_0000, 0x100_0000);
        }
        Scalar { bits: (127 - d) * 0x80_0000 + (m - 0x80_0000) as u32 }
    }

    /// Four times the value.
    pub fn times_four(self) -> (r: Scalar)
        ensures
            r == quadruple(self),
    {
        let sign: u32 = if self.bits >= SIGN_BIT {
            SIGN_BIT
        } else {
            0
        };
        let m: u32 = self.bits - sign;
        let product: u32 = if m >= INFINITY_BITS {
            m
        } else if m >= 253 * 0x80_0000 {
            INFINITY_BITS
        } else if m >= 0x80_0000 {
            m + 2 * 0x80_0000
        } else if m < 0x40_0000 {
            4 * m
        } else {
            0x80_0000 + 2 * m
        };
        Scalar { bits: sign + product }
    }

    fn signed(self) -> (r: i64)
        ensures
            r == self.rank(),
    {
        if self.bits >= SIGN_BIT {
            -((self.bits - SIGN_BIT) as i64)
        } else {
            self.bits as i64
        }
    }

    fn nan(self) -> (r: bool)
        ensures
            r == self.is_nan(),
    {
        if self.bits >= SIGN_BIT {
            self.bits - SIGN_BIT > INFINITY_BITS
        } else {
            self.bits > INFINITY_BITS
        }
    }

    /// Whether `self < other`.
    pub fn less(self, other: Scalar) -> (r: bool)
        ensures
            r == self.lt(other),
    {
        !self.nan() && !other.nan() && self.signed() < other.signed()
    }

    /// Whether the two are the same number.
    pub fn same(self, other: Scalar) -> (r: bool)
        ensures
            r == self.eq_value(other),
    {
        !self.nan() && !other.nan() && self.signed() == other.signed()
    }

    /// The larger of two values. A NaN gives way to the other argument.
    pub fn max(self, other: Scalar) -> (r: Scalar)
        ensures
            r == self.max_of(other),
    {
        if self.nan() || self.less(other) {
            other
        } else {
            self
        }
    }

    /// The smaller of two values. A NaN gives way to the other argument.
    pub fn min(self, other: Scalar) -> (r: Scalar)
        ensures
            r == self.min_of(other),
    {
        if self.nan() || other.less(self) {
            other
        } else {
            self
        }
    }
}

/// Four times a value. Up to the largest value the exponent grows by two; without an exponent of
/// their own, the digits are multiplied. What would be larger is infinite, and what is infinite or
/// not a number stays as it is.
pub open spec fn quadruple(x: Scalar) -> Scalar {
    let sign = x.bits - x.magnitude();
    let m = x.magnitude();
    let product = if m >= INFINITY_BITS {
        m
    } else if m >= 253 * 0x80_0000 {
        INFINITY_BITS as int
    } else if m >= 0x80_0000 {
        m + 2 * 0x80_0000
    } else if m < 0x40_0000 {
        4 * m
    } else {
        0x80_0000 + 2 * m
    };
    Scalar { bits: (sign + product) as u32 }
}

/// The distance of a finite value from zero, in units of two to the power of minus 150.
pub open spec fn units(x: Scalar) -> nat {
    let m = x.magnitude();
    if m < 0x80_0000 {
        (2 * m) as nat
    } else {
        (0x80_0000 + m % 0x80_0000) as nat * pow2((m / 0x80_0000) as nat)
    }
}

/// Four times a value has four times its distance from zero and the same sign, unless that is too
/// far.
pub proof fn quadruple_is_four_times_as_far(x: Scalar)
    requires
        x.magnitude() < 253 * 0x80_0000,
    ensures
        units(quadruple(x)) == 4 * units(x),
        quadruple(x).bits >= SIGN_BIT <==> x.bits >= SIGN_BIT,
        !quadruple(x).is_nan(),
{
    lemma2_to64();
    let m = x.magnitude();
    let y = quadruple(x);
    if m >= 0x80_0000 {
        let e = (m / 0x80_0000) as nat;
        let digits = (0x80_0000 + m % 0x80_0000) as nat;
        assert(y.magnitude() / 0x80_0000 == e + 2);
        assert(y.magnitude() % 0x80_0000 == m % 0x80_0000);
        lemma_pow2_adds(e, 2);
        assert(digits * pow2(e + 2) == 4 * (digits * pow2(e))) by (nonlinear_arith)
            requires
                pow2(e + 2) == pow2(e) * 4,
        ;
    } else if m >= 0x40_0000 {
        assert(y.magnitude() / 0x80_0000 == 2);
        assert(y.magnitude() % 0x80_0000 == 2 * m - 0x80_0000);
        assert((2 * m) * pow2(2) == 8 * m) by (nonlinear_arith)
            requires
                pow2(2) == 4,
        ;
    } else if m >= 0x20_0000 {
        assert(y.magnitude() / 0x80_0000 == 1);
        assert(y.magnitude() % 0x80_0000 == 4 * m - 0x80_0000);
        assert((4 * m) * pow2(1) == 8 * m) by (nonlinear_arith)
            requires
                pow2(1) == 2,
        ;
    }
}

/// How many binary digits a number has.
pub open spec fn digits(n: nat) -> nat
    decreases n,
{
    if n == 0 {
        0
    } else {
        1 + digits(n / 2)
    }
}

/// `a / b`, rounded to the nearest whole number, and to the even one of two that are equally near.
pub open spec fn nearest(a: nat, b: nat) -> nat {
    let q = a / b;
    let rest = a % b;
    if 2 * rest > b || (2 * rest == b && q % 2 == 1) {
        q + 1
    } else {
        q
    }
}

/// A number rounded to 24 binary digits.
pub open spec fn rounded(n: nat) -> nat {
    if digits(n) <= 24 {
        n
    } else {
        let step = pow2((digits(n) - 24) as nat);
        nearest(n, step) * step
    }
}

/// The value of a whole number, rounded to 24 binary digits.
pub open spec fn whole(n: nat) -> Scalar {
    if n == 0 {
        zero()
    } else {
        let d = digits(n);
        let m = if d <= 24 {
            n * pow2((24 - d) as nat)
        } else {
            nearest(n, pow2((d - 24) as nat))
        };
        Scalar { bits: ((126 + d) * 0x80_0000 + m - 0x80_0000) as u32 }
    }
}

/// One divided by the value of a whole number, rounded to 24 binary digits.
pub open spec fn reciprocal(n: nat) -> Scalar {
    if n == 0 {
        infinity()
    } else {
        let v = rounded(n);
        let d = digits(v);
        Scalar { bits: ((127 - d) * 0x80_0000 + nearest(pow2(d + 23), v) - 0x80_0000) as u32 }
    }
}

pub(crate) fn count_digits(n: u64) -> (d: u32)
    ensures
        d == digits(n as nat),
        d <= 64,
{
    let mut d: u32 = 0;
    let mut rest: u64 = n;
    proof {
        lemma2_to64();
        lemma_digits_bound(n as nat, 64);
    }
    while rest > 0
        invariant
            digits(n as nat) == d + digits(rest as nat),
            digits(n as nat) <= 64,
        decreases rest,
    {
        rest = rest / 2;
        d = d + 1;
    }
    d
}

pub(crate) fn power_of_two(k: u32) -> (p: u64)
    requires
        k < 64,
    ensures
        p == pow2(k as nat),
{
    let mut p: u64 = 1;
    let mut i: u32 = 0;
    proof {
        lemma2_to64();
    }
    while i < k
        invariant
            i <= k < 64,
            p == pow2(i as nat),
        decreases k - i,
    {
        proof {
            lemma2_to64();
            lemma_pow2_unfold(64);
            lemma_pow2_unfold((i + 1) as nat);
            if i + 1 < 63 {
                lemma_pow2_strictly_increases((i + 1) as nat, 63);
            }
        }
        p = p * 2;
        i = i + 1;
    }
    p
}

pub(crate) fn divide_to_nearest(a: u64, b: u64) -> (q: u64)
    requires
        0 < b <= 0x4000_0000_0000_0000,
    ensures
        q == nearest(a as nat, b as nat),
{
    let q: u64 = a / b;
    let rest: u64 = a % b;
    if 2 * rest > b || (2 * rest == b && q % 2 == 1) {
        proof {
            assert(q < u64::MAX) by {
                if q == u64::MAX {
                    lemma_fundamental_div_mod(a as int, b as int);
                    assert(b == 1) by (nonlinear_arith)
                        requires
                            b >= 1,
                            b * q <= a,
                            a <= u64::MAX,
                            q == u64::MAX,
                    ;
                }
            }
        }
        q + 1
    } else {
        q
    }
}

pub(crate) fn round_whole(n: u32) -> (r: u64)
    ensures
        r == rounded(n as nat),
        r <= 0x1_0000_0000,
        n > 0 ==> r > 0,
{
    let d: u32 = count_digits(n as u64);
    if d <= 24 {
        n as u64
    } else {
        proof {
            lemma2_to64();
            lemma_digits(n as nat);
            lemma_digits_bound(n as nat, 32);
            lemma_pow2_adds((d - 24) as nat, 24);
            lemma_pow2_adds((d - 24) as nat, 23);
            lemma_nearest_range(
                n as nat,
                pow2((d - 24) as nat),
                0x80_0000,
                0x100_0000,
            );
            if d < 32 {
                lemma_pow2_strictly_increases(d as nat, 32);
            }
        }
        let step: u64 = power_of_two(d - 24);
        let q = divide_to_nearest(n as u64, step);
        proof {
            assert(0 < q * step <= 0x1_0000_0000) by (nonlinear_arith)
                requires
                    0x80_0000 <= q <= 0x100_0000,
                    0 < step,
                    step * 0x100_0000 <= 0x1_0000_0000,
            ;
        }
        q * step
    }
}

/// A number of `d` digits lies between the powers of two with exponents `d - 1` and `d`.
pub(crate) proof fn lemma_digits(n: nat)
    ensures
        n > 0 ==> digits(n) > 0 && pow2((digits(n) - 1) as nat) <= n,
        n < pow2(digits(n)),
    decreases n,
{
    lemma2_to64();
    if n > 0 {
        lemma_digits(n / 2);
        lemma_pow2_unfold(digits(n));
        if n / 2 > 0 {
            lemma_pow2_unfold((digits(n) - 1) as nat);
        }
    }
}

/// A number below the power of two with exponent `k` has at most `k` digits.
pub(crate) proof fn lemma_digits_bound(n: nat, k: nat)
    requires
        n < pow2(k),
    ensures
        digits(n) <= k,
{
    lemma_digits(n);
    if digits(n) > k && n > 0 {
        if k < digits(n) - 1 {
            lemma_pow2_strictly_increases(k, (digits(n) - 1) as nat);
        }
    }
}

proof fn lemma_between(n: nat, low: nat, high: nat, scale: nat)
    requires
        low <= n < high,
        scale > 0,
    ensures
        low * scale <= n * scale < high * scale,
{
    assert(low * scale <= n * scale < high * scale) by (nonlinear_arith)
        requires
            low <= n < high,
            scale > 0,
    ;
}

/// A quotient between two whole numbers is rounded to one between them.
pub(crate) proof fn lemma_nearest_range(a: nat, b: nat, low: nat, high: nat)
    requires
        0 < b,
        low * b <= a <= high * b,
    ensures
        low <= nearest(a, b) <= high,
{
    let q = a / b;
    lemma_fundamental_div_mod(a as int, b as int);
    assert(low <= q) by (nonlinear_arith)
        requires
            low * b <= a,
            a == b * q + a % b,
            a % b < b,
            0 < b,
    ;
    assert(q < high || (q == high && a % b == 0)) by (nonlinear_arith)
        requires
            a <= high * b,
            a == b * q + a % b,
            0 <= a % b < b,
            0 < b,
    ;
}

/// Rounding a quotient moves it by half at most, so a product misses by half its divisor.
pub proof fn nearest_is_near(a: nat, b: nat)
    requires
        0 < b,
    ensures
        2 * (nearest(a, b) * b - a) <= b,
        2 * (a - nearest(a, b) * b) <= b,
{
    let q = a / b;
    lemma_fundamental_div_mod(a as int, b as int);
    assert((q + 1) * b == q * b + b) by (nonlinear_arith);
    assert(q * b == b * q) by (nonlinear_arith);
}

/// The value of a whole number is that number, rounded to 24 digits. It is the number itself
/// where it has no more, and otherwise off by half a step at most.
pub proof fn whole_numbers_have_their_values(n: u32)
    ensures
        whole(n as nat).is_whole(rounded(n as nat)),
        n < 0x100_0000 ==> rounded(n as nat) == n,
        digits(n as nat) > 24 ==> ({
            let step = pow2((digits(n as nat) - 24) as nat);
            &&& 2 * (rounded(n as nat) - n) <= step
            &&& 2 * (n - rounded(n as nat)) <= step
        }),
{
    lemma2_to64();
    lemma_digits(n as nat);
    lemma_digits_bound(n as nat, 32);
    if n < 0x100_0000 {
        lemma_digits_bound(n as nat, 24);
    }
    let d = digits(n as nat);
    if n > 0 {
        lemma_pow2_pos(150);
        if d <= 24 {
            lemma_pow2_adds(d, (24 - d) as nat);
            lemma_pow2_adds((d - 1) as nat, (24 - d) as nat);
            lemma_between(n as nat, pow2((d - 1) as nat), pow2(d), pow2((24 - d) as nat));
            lemma_pow2_adds((24 - d) as nat, 126 + d);
            let m = n * pow2((24 - d) as nat);
            let bits = whole(n as nat).bits;
            assert(bits == (126 + d) * 0x80_0000 + (m - 0x80_0000));
            assert(bits / 0x80_0000 == 126 + d);
            assert(bits % 0x80_0000 == m - 0x80_0000);
            assert(m * pow2(126 + d) == n * pow2(150)) by (nonlinear_arith)
                requires
                    m == n * pow2((24 - d) as nat),
                    pow2((24 - d) as nat) * pow2(126 + d) == pow2(150),
            ;
        } else {
            let step = pow2((d - 24) as nat);
            lemma_pow2_adds((d - 24) as nat, 24);
            lemma_pow2_adds((d - 24) as nat, 23);
            lemma_pow2_adds((d - 24) as nat, 150);
            lemma_nearest_range(n as nat, step, 0x80_0000, 0x100_0000);
            nearest_is_near(n as nat, step);
            let m = nearest(n as nat, step);
            let bits = whole(n as nat).bits;
            assert(bits == (126 + d) * 0x80_0000 + (m - 0x80_0000));
            assert(m * pow2(126 + d) == (m * step) * pow2(150)) by (nonlinear_arith)
                requires
                    step * pow2(150) == pow2(126 + d),
            ;
            assert(m * step > 0) by (nonlinear_arith)
                requires
                    m >= 0x80_0000,
                    step > 0,
            ;
            if m < 0x100_0000 {
                assert(bits / 0x80_0000 == 126 + d);
                assert(bits % 0x80_0000 == m - 0x80_0000);
            } else {
                assert(bits / 0x80_0000 == 127 + d);
                assert(bits % 0x80_0000 == 0);
                lemma_pow2_unfold(127 + d);
                assert(0x80_0000 * pow2(127 + d) == m * pow2(126 + d)) by (nonlinear_arith)
                    requires
                        m == 0x100_0000,
                        pow2(127 + d) == 2 * pow2(126 + d),
                ;
            }
        }
    }
}

/// Positive zero.
pub open spec fn zero() -> Scalar {
    Scalar { bits: 0 }
}

/// The number one.
pub open spec fn one() -> Scalar {
    Scalar { bits: 0x3F80_0000 }
}

/// The number minus one.
pub open spec fn neg_one() -> Scalar {
    Scalar { bits: 0xBF80_0000 }
}

/// Positive infinity.
pub open spec fn infinity() -> Scalar {
    Scalar { bits: 0x7F80_0000 }
}

/// Negative infinity.
pub open spec fn neg_infinity() -> Scalar {
    Scalar { bits: 0xFF80_0000 }
}

/// `<` orders the numbers: it is irreflexive, asymmetric and transitive, and two numbers that it
/// does not separate are the same number.
pub proof fn less_orders_numbers(a: Scalar, b: Scalar, c: Scalar)
    ensures
        !a.lt(a),
        a.lt(b) ==> !b.lt(a),
        a.lt(b) && b.lt(c) ==> a.lt(c),
        !a.is_nan() && !b.is_nan() && !a.lt(b) && !b.lt(a) ==> a.eq_value(b),
{
}

/// The larger of two numbers is one of them, and neither is above it; the smaller likewise.
pub proof fn extremes_bound_both(a: Scalar, b: Scalar)
    requires
        !a.is_nan(),
        !b.is_nan(),
    ensures
        a.max_of(b) == a || a.max_of(b) == b,
        !a.max_of(b).lt(a),
        !a.max_of(b).lt(b),
        a.min_of(b) == a || a.min_of(b) == b,
        !a.lt(a.min_of(b)),
        !b.lt(a.min_of(b)),
{
}

#[derive(Clone, Copy, Debug, PartialEq, Eq, Hash, Structural)]
pub struct Vec4 {
    pub x: Scalar,
    pub y: Scalar,
    pub z: Scalar,
    pub w: Scalar,
}

/// A matrix of four columns.
#[derive(Clone, Copy, Debug, PartialEq, Eq, Hash, Structural)]
pub struct Mat4 {
    pub x_axis: Vec4,
    pub y_axis: Vec4,
    pub z_axis: Vec4,
    pub w_axis: Vec4,
}

impl Vec4 {
    #[verifier::allow_in_spec]
    pub fn new(x: Scalar, y: Scalar, z: Scalar, w: Scalar) -> Vec4
        returns
            (Vec4 { x, y, z, w }),
    {
        Vec4 { x, y, z, w }
    }
}

/// The matrix that changes nothing.
pub open spec fn identity_matrix() -> Mat4 {
    Mat4 {
        x_axis: Vec4 { x: one(), y: zero(), z: zero(), w: zero() },
        y_axis: Vec4 { x: zero(), y: one(), z: zero(), w: zero() },
        z_axis: Vec4 { x: zero(), y: zero(), z: one(), w: zero() },
        w_axis: Vec4 { x: zero(), y: zero(), z: zero(), w: one() },
    }
}

impl Mat4 {
    pub fn identity() -> (m: Mat4)
        ensures
            m == identity_matrix(),
    {
        let o = Scalar::from_bits(0x3F80_0000);
        let z = Scalar::from_bits(0);
        Mat4 {
            x_axis: Vec4::new(o, z, z, z),
            y_axis: Vec4::new(z, o, z, z),
            z_axis: Vec4::new(z, z, o, z),
            w_axis: Vec4::new(z, z, z, o),
        }
    }
}

/// Values are ordered as the numbers they stand for. Of positive ones the larger pattern is the
/// larger number, of negative ones the smaller pattern; a negative one is below a positive one unless
/// both are zero; what is not a number is not ordered.
pub proof fn patterns_order_as_numbers(a: Scalar, b: Scalar)
    ensures
        a.bits <= 0x7F80_0000 && b.bits <= 0x7F80_0000 ==> (a.lt(b) <==> a.bits < b.bits),
        0x8000_0000 <= a.bits <= 0xFF80_0000 && 0x8000_0000 <= b.bits <= 0xFF80_0000 ==> (a.lt(b)
            <==> b.bits < a.bits),
        0x8000_0000 <= a.bits <= 0xFF80_0000 && b.bits <= 0x7F80_0000 ==> (a.lt(b) <==> !(a.bits
            == 0x8000_0000 && b.bits == 0)),
        a.bits <= 0x7F80_0000 && 0x8000_0000 <= b.bits ==> !a.lt(b),
        0x7F80_0000 < a.bits < 0x8000_0000 || 0xFF80_0000 < a.bits ==> !a.lt(b) && !b.lt(a)
            && !a.eq_value(b) && !b.eq_value(a),
        a.bits <= 0x7F80_0000 && b.bits <= 0x7F80_0000 ==> (a.eq_value(b) <==> a.bits == b.bits),
        0x8000_0000 <= a.bits <= 0xFF80_0000 && 0x8000_0000 <= b.bits <= 0xFF80_0000 ==> (
        a.eq_value(b) <==> a.bits == b.bits),
        a.bits <= 0x7F80_0000 && 0x8000_0000 <= b.bits <= 0xFF80_0000 ==> (a.eq_value(b) <==> a.bits
            == 0 && b.bits == 0x8000_0000),
{
}

/// The larger and the smaller of two numbers are one of them each, and together both; a number
/// displaces what is not one.
pub proof fn extremes_are_among_the_two(a: Scalar, b: Scalar)
    ensures
        !a.is_nan() && !b.is_nan() ==> !a.max_of(b).lt(a) && !a.max_of(b).lt(b) && !a.lt(
            a.min_of(b),
        ) && !b.lt(a.min_of(b)),
        !a.is_nan() && !b.is_nan() ==> (a.max_of(b) == a && a.min_of(b) == b || a.max_of(b) == b
            && a.min_of(b) == a || a.eq_value(b) && a.max_of(b) == a && a.min_of(b) == a),
        a.is_nan() ==> a.max_of(b) == b && a.min_of(b) == b,
        !a.is_nan() && b.is_nan() ==> a.max_of(b) == a && a.min_of(b) == a,
{
}

/// The matrix that changes nothing has ones where row and column meet, and zeros elsewhere.
pub proof fn identity_has_ones_on_the_diagonal()
    ensures
        identity_matrix().x_axis.x.bits == 0x3F80_0000,
        identity_matrix().y_axis.y.bits == 0x3F80_0000,
        identity_matrix().z_axis.z.bits == 0x3F80_0000,
        identity_matrix().w_axis.w.bits == 0x3F80_0000,
        identity_matrix().x_axis.y.bits == 0 && identity_matrix().x_axis.z.bits == 0
            && identity_matrix().x_axis.w.bits == 0,
        identity_matrix().y_axis.x.bits == 0 && identity_matrix().y_axis.z.bits == 0
            && identity_matrix().y_axis.w.bits == 0,
        identity_matrix().z_axis.x.bits == 0 && identity_matrix().z_axis.y.bits == 0
            && identity_matrix().z_axis.w.bits == 0,
        identity_matrix().w_axis.x.bits == 0 && identity_matrix().w_axis.y.bits == 0
            && identity_matrix().w_axis.z.bits == 0,
{
}

/// Four times a value past the largest number is infinite, with the same sign; infinities and what is
/// not a number stay as they are.
pub proof fn quadruple_ends_at_infinity(x: Scalar)
    ensures
        253 * 0x80_0000 <= x.magnitude() < 0x7F80_0000 ==> quadruple(x).magnitude() == 0x7F80_0000,
        0x7F80_0000 <= x.magnitude() ==> quadruple(x) == x,
        quadruple(x).bits >= 0x8000_0000 <==> x.bits >= 0x8000_0000,
{
}

/// The reciprocal of a whole number has 24 digits, and its product with the value of that number is one
/// to within half a unit of its last digit, times that value. That of zero is infinite.
pub proof fn reciprocals_are_nearest(n: u32)
    ensures
        n == 0 ==> reciprocal(n as nat).bits == 0x7F80_0000,
        n > 0 ==> ({
            let x = reciprocal(n as nat);
            let v = rounded(n as nat);
            let unit = pow2((150 - x.exponent()) as nat);
            &&& 0 < x.exponent() < 150
            &&& 0x80_0000 <= x.significand() < 0x100_0000
            &&& 2 * (x.significand() * v - unit) <= v
            &&& 2 * (unit - x.significand() * v) <= v
        }),
{
    if n > 0 {
        let v = rounded(n as nat);
        let d = digits(v);
        lemma2_to64();
        lemma_pow2_unfold(33);
        whole_numbers_have_their_values(n);
        lemma_digits(n as nat);
        lemma_digits_bound(n as nat, 32);
        lemma_rounded_range(n);
        lemma_digits(v);
        lemma_digits_bound(v, 33);
        lemma_pow2_adds((d - 1) as nat, 24);
        lemma_pow2_adds(d, 23);
        let one_over = pow2(d + 23);
        let m = nearest(one_over, v);
        assert(0x80_0000 * v <= one_over) by (nonlinear_arith)
            requires
                v < pow2(d),
                one_over == pow2(d) * 0x80_0000,
        ;
        assert(one_over <= 0x100_0000 * v) by (nonlinear_arith)
            requires
                pow2((d - 1) as nat) <= v,
                one_over == pow2((d - 1) as nat) * 0x100_0000,
        ;
        lemma_nearest_range(one_over, v, 0x80_0000, 0x100_0000);
        nearest_is_near(one_over, v);
        let x = reciprocal(n as nat);
        assert(x.bits == (127 - d) * 0x80_0000 + (m - 0x80_0000));
        if m < 0x100_0000 {
            assert(x.bits / 0x80_0000 == 127 - d);
            assert(x.bits % 0x80_0000 == m - 0x80_0000);
            assert(x.significand() == m);
        } else {
            assert(x.bits / 0x80_0000 == 128 - d);
            assert(x.bits % 0x80_0000 == 0);
            lemma_pow2_unfold(d + 23);
            assert(2 * (0x80_0000 * v) == m * v) by (nonlinear_arith)
                requires
                    m == 0x100_0000,
            ;
        }
    }
}

proof fn lemma_rounded_range(n: u32)
    requires
        n > 0,
    ensures
        0 < rounded(n as nat) <= 0x1_0000_0000,
{
    lemma2_to64();
    lemma_digits(n as nat);
    lemma_digits_bound(n as nat, 32);
    let d = digits(n as nat);
    if d > 24 {
        let step = pow2((d - 24) as nat);
        lemma_pow2_pos((d - 24) as nat);
        lemma_pow2_adds(24, (d - 24) as nat);
        lemma_pow2_adds(23, (d - 24) as nat);
        if d < 32 {
            lemma_pow2_strictly_increases(d, 32);
        }
        assert(0x80_0000 * step <= n && n <= 0x100_0000 * step);
        lemma_nearest_range(n as nat, step, 0x80_0000, 0x100_0000);
        let q = nearest(n as nat, step);
        assert(0 < q * step <= 0x100_0000 * step) by (nonlinear_arith)
            requires
                0x80_0000 <= q <= 0x100_0000,
                step > 0,
        ;
    }
}

} // verus!
