//! What holds of zooms and tile levels.

use vstd::arithmetic::div_mod::{
    lemma_basic_div, lemma_div_is_ordered, lemma_fundamental_div_mod, lemma_mod_bound,
};
use vstd::arithmetic::mul::{
    lemma_mul_inequality, lemma_mul_is_commutative, lemma_mul_is_distributive_add,
};
use vstd::arithmetic::power2::{
    lemma2_to64, lemma2_to64_rest, lemma_pow2_adds, lemma_pow2_pos, lemma_pow2_strictly_increases,
    pow2,
};
use vstd::prelude::*;

use crate::zoom::{
    lemma_significand_shifted, lemma_whole_of_large_exponent, lemma_whole_of_middle_exponent,
    lemma_whole_of_small_exponent, Zoom, FRACTION_RANGE, SIGN_BIT,
};

verus! {

/// A zoom is at least its tile level, and below the next one unless the level
/// is the highest there is.
pub proof fn law_zoom_lies_within_its_level(zoom: Zoom)
    requires
        !zoom.negative(),
        !zoom.is_nan(),
        !zoom.is_infinite(),
    ensures
        zoom.level() * pow2(1074) <= zoom.units(),
        zoom.level() < 255 ==> zoom.units() < (zoom.level() + 1) * pow2(1074),
{
    let unit = pow2(1074) as int;
    lemma_pow2_pos(1074);
    lemma_fundamental_div_mod(zoom.units() as int, unit);
    lemma_mod_bound(zoom.units() as int, unit);
    lemma_mul_is_commutative(unit, zoom.whole() as int);
    lemma_mul_is_distributive_add(unit, zoom.whole() as int, 1);
    lemma_mul_is_commutative(unit, (zoom.whole() + 1) as int);
    lemma_mul_inequality(zoom.level() as int, zoom.whole() as int, unit);
}

/// Of two zooms that are not negative, the one with the greater pattern is the
/// greater number.
proof fn lemma_units_ordered(low: Zoom, high: Zoom)
    requires
        !high.negative(),
        low.bits <= high.bits,
    ensures
        low.units() <= high.units(),
{
    let low_exponent = low.exponent();
    let high_exponent = high.exponent();
    lemma_mod_bound(low.bits as int, FRACTION_RANGE as int);
    lemma_mod_bound(high.bits as int, FRACTION_RANGE as int);
    lemma2_to64_rest();
    assert(low_exponent <= high_exponent);
    if low_exponent == high_exponent {
        assert(low.fraction() <= high.fraction());
        if low_exponent != 0 {
            lemma_mul_inequality(
                FRACTION_RANGE + low.fraction(),
                FRACTION_RANGE + high.fraction(),
                pow2((low_exponent - 1) as nat) as int,
            );
        }
    } else {
        let high_scale = pow2((high_exponent - 1) as nat);
        lemma_pow2_pos((high_exponent - 1) as nat);
        lemma_mul_inequality(
            FRACTION_RANGE as int,
            FRACTION_RANGE + high.fraction(),
            high_scale as int,
        );
        if low_exponent == 0 {
            lemma_mul_inequality(1, high_scale as int, FRACTION_RANGE as int);
            lemma_mul_is_commutative(high_scale as int, FRACTION_RANGE as int);
        } else {
            let low_scale = pow2((low_exponent - 1) as nat);
            lemma_pow2_pos((low_exponent - 1) as nat);
            lemma_mul_inequality(
                FRACTION_RANGE + low.fraction(),
                2 * FRACTION_RANGE,
                low_scale as int,
            );
            lemma_pow2_adds(1, (low_exponent - 1) as nat);
            assert(pow2(1) == 2) by {
                lemma2_to64();
            }
            if low_exponent < high_exponent - 1 {
                lemma_pow2_strictly_increases(low_exponent, (high_exponent - 1) as nat);
            }
            assert(2 * low_scale <= high_scale);
            lemma_mul_inequality((2 * low_scale) as int, high_scale as int, FRACTION_RANGE as int);
            assert((2 * FRACTION_RANGE) * low_scale == (2 * low_scale) * FRACTION_RANGE)
                by (nonlinear_arith);
            lemma_mul_is_commutative(high_scale as int, FRACTION_RANGE as int);
        }
    }
}

/// Whether one zoom is at most as great as another. Nothing is comparable with
/// what is not a number, and both zeros are equal.
pub open spec fn at_most(low: Zoom, high: Zoom) -> bool {
    &&& !low.is_nan()
    &&& !high.is_nan()
    &&& if low.negative() && high.negative() {
        low.bits >= high.bits
    } else if low.negative() {
        true
    } else if high.negative() {
        low.bits == 0 && high.bits == SIGN_BIT
    } else {
        low.bits <= high.bits
    }
}

/// Zooming in never lowers the visible tile level.
pub proof fn law_level_follows_zoom(low: Zoom, high: Zoom)
    requires
        at_most(low, high),
    ensures
        low.level() <= high.level(),
{
    if !low.negative() && !high.negative() {
        lemma_units_ordered(low, high);
        lemma_pow2_pos(1074);
        lemma_div_is_ordered(low.units() as int, high.units() as int, pow2(1074) as int);
    } else if !low.negative() {
        assert(low == Zoom { bits: 0 });
        assert(low.units() == 0);
        lemma_pow2_pos(1074);
        lemma_basic_div(0, pow2(1074) as int);
    }
}

/// The level read off the pattern itself. Below the pattern of 1, at and above
/// the sign bit and where it is not a number it is 0; from the pattern of 256 up
/// to infinity it is 255.
pub proof fn law_level_at_the_ends(zoom: Zoom)
    ensures
        zoom.bits < 0x3ff0_0000_0000_0000 ==> zoom.level() == 0,
        zoom.bits > 0x7ff0_0000_0000_0000 ==> zoom.level() == 0,
        0x4070_0000_0000_0000 <= zoom.bits <= 0x7ff0_0000_0000_0000 ==> zoom.level() == 255,
{
    let bits = zoom.bits as int;
    assert(FRACTION_RANGE == 0x10_0000_0000_0000);
    lemma_fundamental_div_mod(bits, 0x10_0000_0000_0000);
    if bits < 0x3ff0_0000_0000_0000 {
        lemma_whole_of_small_exponent(zoom);
    } else if 0x4070_0000_0000_0000 <= bits < 0x7ff0_0000_0000_0000 {
        lemma_whole_of_large_exponent(zoom);
    }
}

/// From the pattern of 1 up to that of 256 the level is what is left of the
/// significand in front of the point.
pub proof fn law_level_is_the_whole_part(zoom: Zoom)
    requires
        0x3ff0_0000_0000_0000 <= zoom.bits < 0x4070_0000_0000_0000,
    ensures
        ({
            let significand = 0x10_0000_0000_0000 + zoom.bits % 0x10_0000_0000_0000;
            let point = (1075 - zoom.bits / 0x10_0000_0000_0000) as nat;
            &&& zoom.level() * pow2(point) <= significand
            &&& significand < (zoom.level() + 1) * pow2(point)
        }),
{
    let exponent = zoom.exponent();
    let point = (1075 - exponent) as nat;
    let significand = FRACTION_RANGE as nat + zoom.fraction();
    lemma_mod_bound(zoom.bits as int, FRACTION_RANGE as int);
    assert(1023 <= exponent <= 1030);
    lemma_whole_of_middle_exponent(zoom);
    lemma_significand_shifted(significand, point);
    let whole = zoom.whole();
    let unit = pow2(point) as int;
    lemma_pow2_pos(point);
    lemma_fundamental_div_mod(significand as int, unit);
    lemma_mod_bound(significand as int, unit);
    lemma_mul_is_commutative(unit, whole as int);
    lemma_mul_is_distributive_add(unit, whole as int, 1);
    lemma_mul_is_commutative(unit, (whole + 1) as int);
}

} // verus!
