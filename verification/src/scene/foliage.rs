//! Channels of foliage and emissive vertices: fractions in eight bits each.

use vstd::arithmetic::div_mod::{lemma_fundamental_div_mod, lemma_fundamental_div_mod_converse};
use vstd::arithmetic::power2::{
    lemma2_to64, lemma_pow2_adds, lemma_pow2_pos, lemma_pow2_strictly_increases, lemma_pow2_unfold,
    pow2,
};
use vstd::prelude::*;

use crate::scalar::{
    count_digits, digits, divide_to_nearest, lemma_digits, lemma_digits_bound, lemma_nearest_range,
    nearest, nearest_is_near, one, power_of_two, round_whole, rounded, zero, Scalar, INFINITY_BITS,
    SIGN_BIT,
};

verus! {

/// The product of a fraction and 255, times two to the power [`fraction_scale`]: rounded to 24
/// digits, as a product of single-precision numbers is.
pub open spec fn scaled_product(x: Scalar) -> nat {
    rounded(255 * x.significand())
}

/// How many binary places a fraction's digits stand behind the point.
pub open spec fn fraction_scale(x: Scalar) -> nat {
    if x.exponent() == 0 {
        149
    } else {
        (150 - x.exponent()) as nat
    }
}

/// A number limited to the range from zero to one, times 255, rounded to the nearest whole number,
/// and up where two are equally near. What is not a number counts as zero.
pub open spec fn level(x: Scalar) -> nat {
    if x.is_nan() || !zero().lt(x) {
        0
    } else if !x.lt(one()) {
        255
    } else {
        (2 * scaled_product(x) + pow2(fraction_scale(x))) as nat / pow2(fraction_scale(x) + 1)
    }
}

/// `n / 255`, rounded to the nearest value.
pub open spec fn fraction(n: nat) -> Scalar {
    if n == 0 {
        zero()
    } else {
        let d = digits(n);
        let m = nearest(n * pow2((32 - d) as nat), 255);
        Scalar { bits: ((118 + d) * 0x80_0000 + m - 0x80_0000) as u32 }
    }
}

/// A product with 255 keeps below 255 times the power of two that its factor keeps below.
proof fn lemma_product_bound(m: nat)
    requires
        m < 0x100_0000,
    ensures
        rounded(255 * m) <= 255 * 0x100_0000,
{
    lemma2_to64();
    let n = 255 * m;
    lemma_digits(n);
    lemma_digits_bound(n, 32);
    let d = digits(n);
    if d > 24 {
        let step = pow2((d - 24) as nat);
        lemma_pow2_pos((d - 24) as nat);
        lemma_pow2_adds((d - 24) as nat, 24);
        if d == 32 {
            assert(step == 256);
            lemma_nearest_range(n, step, 0, 255 * 0x1_0000);
        } else {
            lemma_nearest_range(n, step, 0, 0x100_0000);
            lemma_pow2_strictly_increases(d, 32);
            lemma_pow2_unfold(32);
            assert(pow2(d) <= 0x8000_0000) by {
                if d < 31 {
                    lemma_pow2_strictly_increases(d, 31);
                }
            }
            assert(nearest(n, step) * step <= 0x100_0000 * step) by (nonlinear_arith)
                requires
                    nearest(n, step) <= 0x100_0000,
            ;
        }
    }
}

fn level_of(x: Scalar) -> (n: u8)
    ensures
        n == level(x),
{
    if x.bits > INFINITY_BITS {
        // Negative, or not a number.
        return 0;
    }
    if x.bits == 0 {
        return 0;
    }
    if x.bits >= 0x3F80_0000 {
        return 255;
    }
    let exponent: u32 = x.bits / 0x80_0000;
    if exponent < 117 {
        proof {
            lemma_small_level(x);
        }
        return 0;
    }
    let digits_of_x: u32 = 0x80_0000 + x.bits % 0x80_0000;
    let product: u64 = round_whole(255 * digits_of_x);
    let scale: u32 = 150 - exponent;
    let unit: u64 = power_of_two(scale);
    proof {
        lemma_product_bound(digits_of_x as nat);
        lemma2_to64();
        lemma_pow2_unfold(33);
        lemma_pow2_unfold((scale + 1) as nat);
        if scale < 33 {
            lemma_pow2_strictly_increases(scale as nat, 33);
        }
        if scale > 24 {
            lemma_pow2_strictly_increases(24, scale as nat);
        }
        assert((2 * product + unit) / (2 * unit) < 256) by (nonlinear_arith)
            requires
                unit > 0,
                2 * product + unit <= 511 * unit,
        ;
    }
    ((2 * product + unit) / (2 * unit)) as u8
}

/// Below an eighth of a thousandth, a fraction has level zero.
proof fn lemma_small_level(x: Scalar)
    requires
        zero().lt(x),
        x.exponent() < 117,
        x.bits < SIGN_BIT,
    ensures
        level(x) == 0,
{
    let k = fraction_scale(x);
    let p = scaled_product(x);
    lemma2_to64();
    lemma_product_bound(x.significand());
    lemma_pow2_unfold(33);
    lemma_pow2_unfold(34);
    lemma_pow2_unfold(k + 1);
    if k > 34 {
        lemma_pow2_strictly_increases(34, k);
    }
    assert(2 * p + pow2(k) < pow2(k + 1));
    assert((2 * p + pow2(k)) as nat / pow2(k + 1) == 0) by (nonlinear_arith)
        requires
            0 <= 2 * p + pow2(k) < pow2(k + 1),
    ;
}

fn fraction_of(n: u32) -> (x: Scalar)
    requires
        n <= 255,
    ensures
        x == fraction(n as nat),
{
    if n == 0 {
        return Scalar::from_bits(0);
    }
    let d: u32 = count_digits(n as u64);
    proof {
        lemma2_to64();
        lemma_digits_bound(n as nat, 8);
        lemma_fraction_range(n as nat);
        lemma_digits(n as nat);
    }
    let scale: u64 = power_of_two(32 - d);
    assert(n * scale <= 255 * 0x1_0000_0000) by (nonlinear_arith)
        requires
            n <= 255,
            scale <= 0x1_0000_0000,
    ;
    let m: u64 = divide_to_nearest(n as u64 * scale, 255);
    Scalar { bits: (118 + d) * 0x80_0000 + (m - 0x80_0000) as u32 }
}

/// The digits of a fraction of 255.
proof fn lemma_fraction_range(n: nat)
    requires
        0 < n <= 255,
    ensures
        1 <= digits(n) <= 8,
        pow2((32 - digits(n)) as nat) <= 0x1_0000_0000,
        0x80_0000 <= nearest(n * pow2((32 - digits(n)) as nat), 255) <= 0x100_0000,
        nearest(n * pow2((32 - digits(n)) as nat), 255) == 0x100_0000 ==> n == 255,
{
    lemma2_to64();
    lemma_digits(n);
    lemma_digits_bound(n, 8);
    let d = digits(n);
    let unit = pow2((32 - d) as nat);
    lemma_pow2_adds(d, (32 - d) as nat);
    lemma_pow2_adds((d - 1) as nat, (32 - d) as nat);
    lemma_pow2_strictly_increases((32 - d) as nat, 32);
    assert(0x8000_0000 <= n * unit < 0x1_0000_0000) by (nonlinear_arith)
        requires
            pow2((d - 1) as nat) <= n < pow2(d),
            pow2((d - 1) as nat) * unit == 0x8000_0000,
            pow2(d) * unit == 0x1_0000_0000,
            unit > 0,
    ;
    lemma_pow2_adds(24, (8 - d) as nat);
    let part = pow2((8 - d) as nat);
    assert(n * unit == (n * part) * 0x100_0000) by (nonlinear_arith)
        requires
            unit == 0x100_0000 * part,
    ;
    assert(n * part <= 255) by {
        assert(n * unit < 0x1_0000_0000);
    }
    lemma_nearest_range(n * unit, 255, 0x80_0000, 0x100_0000);
    if nearest(n * unit, 255) == 0x100_0000 {
        nearest_is_near(n * unit, 255);
        assert(n * part == 255);
        if d < 8 {
            lemma_pow2_unfold((8 - d) as nat);
            let half = pow2((7 - d) as nat);
            assert(n * part == 2 * (n * half)) by (nonlinear_arith)
                requires
                    part == 2 * half,
            ;
        } else {
            assert(n * part == n) by (nonlinear_arith)
                requires
                    part == 1,
            ;
        }
    }
}

/// Packs two channels of a foliage or emissive vertex: bits 0 to 7 hold alpha, bits 8 to 15 hold
/// the emissive intensity, each from 0 for nothing to 255 for one. The other bits are zero.
pub fn pack_foliage_channels(alpha: Scalar, emissive: Scalar) -> (channels: u32)
    ensures
        channels == level(alpha) + 0x100 * level(emissive),
{
    let a: u32 = level_of(alpha) as u32;
    let e: u32 = level_of(emissive) as u32;
    assert(a < 0x100 && e < 0x100 ==> (a | (e << 8)) == a + 0x100 * e) by (bit_vector);
    a | (e << 8)
}

/// The alpha channel, from zero to one.
pub fn unpack_alpha(semantic_channels: u32) -> (alpha: Scalar)
    ensures
        alpha == fraction((semantic_channels % 0x100) as nat),
{
    assert(semantic_channels & 0xFF == semantic_channels % 0x100) by (bit_vector);
    fraction_of(semantic_channels & 0xFF)
}

/// The emissive intensity, from zero to one.
pub fn unpack_emissive(semantic_channels: u32) -> (emissive: Scalar)
    ensures
        emissive == fraction((semantic_channels / 0x100 % 0x100) as nat),
{
    assert((semantic_channels >> 8) & 0xFF == (semantic_channels / 0x100) % 0x100) by (bit_vector);
    fraction_of((semantic_channels >> 8) & 0xFF)
}

/// A level survives being unpacked and packed again.
pub proof fn levels_survive_unpacking(n: nat)
    requires
        n <= 255,
    ensures
        level(fraction(n)) == n,
{
    if n > 0 {
        lemma2_to64();
        lemma_fraction_range(n);
        let d = digits(n);
        let s = (32 - d) as nat;
        let unit = pow2(s);
        let m = nearest(n * unit, 255);
        let x = fraction(n);
        assert(x.bits == (118 + d) * 0x80_0000 + (m - 0x80_0000));
        if m == 0x100_0000 {
            lemma_digits(n);
            assert(d == 8) by {
                if d < 8 {
                    if d < 7 {
                        lemma_pow2_strictly_increases(d, 7);
                    }
                }
            }
            assert(x == one());
        } else {
            assert(x.bits / 0x80_0000 == 118 + d);
            assert(x.bits % 0x80_0000 == m - 0x80_0000);
            assert(x.significand() == m);
            assert(fraction_scale(x) == s);
            nearest_is_near(n * unit, 255);
            let p = rounded(255 * m);
            lemma_rounding(255 * m);
            if s > 24 {
                lemma_pow2_strictly_increases(24, s);
            }
            lemma_pow2_unfold(s + 1);
            let rest = 2 * p + unit - 2 * (n * unit);
            assert(0 <= rest < 2 * unit);
            assert(2 * p + unit == n * (2 * unit) + rest) by (nonlinear_arith)
                requires
                    rest == 2 * p + unit - 2 * (n * unit),
            ;
            lemma_fundamental_div_mod_converse(
                (2 * p + unit) as int,
                (2 * unit) as int,
                n as int,
                rest,
            );
        }
    }
}

/// Rounding a number of at most 32 digits moves it by 128 at most.
proof fn lemma_rounding(n: nat)
    requires
        n < 0x1_0000_0000,
    ensures
        rounded(n) - n <= 128,
        n - rounded(n) <= 128,
{
    lemma2_to64();
    lemma_digits(n);
    lemma_digits_bound(n, 32);
    if digits(n) > 24 {
        let step = pow2((digits(n) - 24) as nat);
        lemma_pow2_pos((digits(n) - 24) as nat);
        if digits(n) < 32 {
            lemma_pow2_strictly_increases((digits(n) - 24) as nat, 8);
        }
        nearest_is_near(n, step);
    }
}

/// Unpacked channels give the same channels when they are packed again, and packing leaves the upper
/// sixteen bits clear.
pub proof fn foliage_channels_round_trip(channels: u32, alpha: Scalar, emissive: Scalar)
    ensures
        level(fraction((channels % 0x100) as nat)) + 0x100 * level(
            fraction((channels / 0x100 % 0x100) as nat),
        ) == channels % 0x1_0000,
        level(alpha) + 0x100 * level(emissive) < 0x1_0000,
{
    levels_survive_unpacking((channels % 0x100) as nat);
    levels_survive_unpacking((channels / 0x100 % 0x100) as nat);
    lemma_level_bound(alpha);
    lemma_level_bound(emissive);
}

proof fn lemma_level_bound(x: Scalar)
    ensures
        level(x) <= 255,
{
    if !x.is_nan() && zero().lt(x) && x.lt(one()) {
        if x.exponent() < 117 {
            lemma_small_level(x);
        } else {
            let k = fraction_scale(x);
            let p = scaled_product(x);
            lemma2_to64();
            lemma_product_bound(x.significand());
            lemma_pow2_unfold(k + 1);
            if k > 24 {
                lemma_pow2_strictly_increases(24, k);
            }
            let unit = pow2(k);
            assert((2 * p + unit) / (2 * unit) < 256) by (nonlinear_arith)
                requires
                    unit > 0,
                    2 * p + unit <= 511 * unit,
            ;
        }
    }
}

/// A fraction's level is the whole number that is nearest to its product with 255.
pub proof fn levels_are_nearest(x: Scalar)
    requires
        zero().lt(x),
        x.lt(one()),
    ensures
        ({
            let unit = pow2(fraction_scale(x));
            &&& 2 * (level(x) * unit - scaled_product(x)) <= unit
            &&& 2 * (scaled_product(x) - level(x) * unit) < unit
        }),
{
    let k = fraction_scale(x);
    let unit = pow2(k);
    let a = 2 * scaled_product(x) + unit;
    lemma_pow2_pos(k);
    lemma_pow2_unfold(k + 1);
    lemma_fundamental_div_mod(a as int, pow2(k + 1) as int);
    let q = level(x);
    assert(pow2(k + 1) * q == 2 * (q * unit)) by (nonlinear_arith)
        requires
            pow2(k + 1) == 2 * unit,
    ;
}

/// What is not above zero, or not a number, has level zero; what is not below one has level 255.
pub proof fn levels_are_limited(x: Scalar)
    ensures
        x.is_nan() ==> level(x) == 0,
        !(Scalar { bits: 0 }).lt(x) ==> level(x) == 0,
        !x.is_nan() && !x.lt(Scalar { bits: 0x3F80_0000 }) ==> level(x) == 255,
{
}

/// A fraction is the single-precision number that is nearest to `n / 255`: it has 24 digits, and 255
/// times it is `n` to within half a unit of its last digit, times 255.
pub proof fn fractions_are_nearest(n: nat)
    requires
        0 < n < 255,
    ensures
        ({
            let x = fraction(n);
            let unit = pow2(fraction_scale(x));
            &&& 0x80_0000 <= x.significand() < 0x100_0000
            &&& 2 * (255 * x.significand() - n * unit) <= 255
            &&& 2 * (n * unit - 255 * x.significand()) <= 255
        }),
        fraction(0).bits == 0,
        fraction(255).bits == 0x3F80_0000,
{
    lemma2_to64();
    lemma_fraction_range(n);
    let d = digits(n);
    let s = (32 - d) as nat;
    let unit = pow2(s);
    let m = nearest(n * unit, 255);
    let x = fraction(n);
    assert(x.bits == (118 + d) * 0x80_0000 + (m - 0x80_0000));
    assert(x.bits / 0x80_0000 == 118 + d);
    assert(x.bits % 0x80_0000 == m - 0x80_0000);
    assert(x.significand() == m);
    assert(fraction_scale(x) == s);
    nearest_is_near(n * unit, 255);
    lemma_digits(255);
    lemma_digits_bound(255, 8);
    assert(digits(255) == 8) by {
        if digits(255) < 7 {
            lemma_pow2_strictly_increases(digits(255), 7);
        }
    }
    assert(nearest(255 * 0x100_0000, 255) == 0x100_0000) by {
        nearest_is_near(255 * 0x100_0000, 255);
    }
}

} // verus!
