//! The zoom level of the map and the tile level that is visible at it.

use vstd::arithmetic::div_mod::{
    lemma_basic_div, lemma_div_is_ordered, lemma_div_multiples_vanish,
    lemma_div_multiples_vanish_quotient, lemma_fundamental_div_mod, lemma_mod_bound,
};
use vstd::arithmetic::mul::{
    lemma_mul_inequality, lemma_mul_is_commutative, lemma_mul_strict_inequality,
};
use vstd::arithmetic::power2::{
    lemma2_to64, lemma2_to64_rest, lemma_pow2_adds, lemma_pow2_pos, lemma_pow2_strictly_increases,
    pow2,
};
use vstd::bits::lemma_u64_shr_is_div;
use vstd::prelude::*;

verus! {

/// How many patterns the 52 stored fraction bits of a number can have.
pub const FRACTION_RANGE: u64 = 0x10_0000_0000_0000;

/// The bit that is set in the pattern of a negative number.
pub const SIGN_BIT: u64 = 0x8000_0000_0000_0000;

/// A zoom level, held as the bit pattern of an IEEE 754 binary64 number.
#[derive(Clone, Copy, PartialEq, Eq, Structural, Debug)]
pub struct Zoom {
    pub bits: u64,
}

impl Zoom {
    /// Whether the number carries a minus sign.
    pub open spec fn negative(self) -> bool {
        self.bits >= SIGN_BIT
    }

    /// The biased exponent, between 0 and 2047.
    pub open spec fn exponent(self) -> nat {
        ((self.bits as nat) / (FRACTION_RANGE as nat)) % 2048
    }

    /// The stored fraction bits.
    pub open spec fn fraction(self) -> nat {
        (self.bits as nat) % (FRACTION_RANGE as nat)
    }

    pub open spec fn is_nan(self) -> bool {
        self.exponent() == 2047 && self.fraction() != 0
    }

    pub open spec fn is_infinite(self) -> bool {
        self.exponent() == 2047 && self.fraction() == 0
    }

    /// The magnitude of a finite number in units of `2^-1074`, the smallest
    /// positive number: every finite magnitude is a whole number of them.
    pub open spec fn units(self) -> nat {
        if self.exponent() == 0 {
            self.fraction()
        } else {
            (FRACTION_RANGE as nat + self.fraction()) * pow2((self.exponent() - 1) as nat)
        }
    }

    /// The magnitude of a finite number, rounded down to a whole number.
    pub open spec fn whole(self) -> nat {
        self.units() / pow2(1074)
    }

    /// The tile level that is visible at this zoom: the zoom rounded down,
    /// brought into the range of a byte. What is not a number counts as 0.
    pub open spec fn level(self) -> u8 {
        if self.is_nan() || self.negative() {
            0u8
        } else if self.is_infinite() || self.whole() > 255 {
            255u8
        } else {
            self.whole() as u8
        }
    }

    /// The zoom 0, at which the whole world is one tile.
    pub fn zero() -> (zoom: Zoom)
        ensures
            zoom == (Zoom { bits: 0 }),
            zoom.level() == 0,
    {
        proof {
            lemma_pow2_pos(1074);
            lemma_whole_of_small_exponent(Zoom { bits: 0 });
        }
        Zoom { bits: 0 }
    }

    /// Rounds the zoom down to a tile level.
    pub fn floor_to_level(&self) -> (level: u8)
        ensures
            level == self.level(),
    {
        if self.bits >= SIGN_BIT {
            return 0;
        }
        let exponent: u64 = self.bits / FRACTION_RANGE % 2048;
        let fraction: u64 = self.bits % FRACTION_RANGE;
        if exponent == 2047 {
            return if fraction == 0 {
                255
            } else {
                0
            };
        }
        if exponent < 1023 {
            proof {
                lemma_whole_of_small_exponent(*self);
            }
            0
        } else if exponent > 1030 {
            proof {
                lemma_whole_of_large_exponent(*self);
            }
            255
        } else {
            let significand: u64 = FRACTION_RANGE + fraction;
            let shift: u64 = 1075 - exponent;
            let whole: u64 = significand >> shift;
            proof {
                lemma_u64_shr_is_div(significand, shift);
                lemma_whole_of_middle_exponent(*self);
                lemma_significand_shifted(significand as nat, shift as nat);
            }
            whole as u8
        }
    }
}

/// A number below 1 rounds down to 0.
pub(crate) proof fn lemma_whole_of_small_exponent(zoom: Zoom)
    requires
        zoom.exponent() < 1023,
    ensures
        zoom.whole() == 0,
{
    let fraction = zoom.fraction();
    lemma_fraction_bound(zoom);
    lemma2_to64_rest();
    if zoom.exponent() == 0 {
        lemma_pow2_strictly_increases(52, 1074);
        assert(zoom.units() < pow2(1074));
    } else {
        let significand = FRACTION_RANGE as nat + fraction;
        let scale = pow2((zoom.exponent() - 1) as nat);
        lemma_pow2_pos((zoom.exponent() - 1) as nat);
        assert(significand < pow2(53)) by {
            assert(pow2(53) == 0x20_0000_0000_0000);
        }
        lemma_mul_strict_inequality(significand as int, pow2(53) as int, scale as int);
        lemma_pow2_adds(53, (zoom.exponent() - 1) as nat);
        if zoom.exponent() - 1 + 53 < 1074 {
            lemma_pow2_strictly_increases((53 + zoom.exponent() - 1) as nat, 1074);
        }
        assert(zoom.units() < pow2(1074));
    }
    lemma_basic_div(zoom.units() as int, pow2(1074) as int);
}

/// A number of 256 or more rounds down to 256 or more.
pub(crate) proof fn lemma_whole_of_large_exponent(zoom: Zoom)
    requires
        1030 < zoom.exponent(),
    ensures
        zoom.whole() > 255,
{
    lemma_fraction_bound(zoom);
    lemma2_to64();
    lemma2_to64_rest();
    let power = (zoom.exponent() - 1) as nat;
    let significand = FRACTION_RANGE as nat + zoom.fraction();
    lemma_pow2_pos(power);
    lemma_pow2_pos(1074);
    assert(pow2(52) * pow2(power) <= significand * pow2(power)) by {
        lemma_mul_inequality(pow2(52) as int, significand as int, pow2(power) as int);
    }
    lemma_pow2_adds(52, power);
    if 1082 < 52 + power {
        lemma_pow2_strictly_increases(1082, 52 + power);
    }
    lemma_pow2_adds(8, 1074);
    assert(pow2(8) * pow2(1074) <= zoom.units());
    lemma_div_is_ordered(
        (pow2(8) * pow2(1074)) as int,
        zoom.units() as int,
        pow2(1074) as int,
    );
    lemma_mul_is_commutative(pow2(8) as int, pow2(1074) as int);
    lemma_div_multiples_vanish(pow2(8) as int, pow2(1074) as int);
}

/// From 1 up to 256, rounding down drops the low bits of the significand.
pub(crate) proof fn lemma_whole_of_middle_exponent(zoom: Zoom)
    requires
        1023 <= zoom.exponent() <= 1030,
    ensures
        zoom.whole() == (FRACTION_RANGE as nat + zoom.fraction()) / pow2(
            (1075 - zoom.exponent()) as nat,
        ),
{
    let shift = (1075 - zoom.exponent()) as nat;
    let power = (zoom.exponent() - 1) as nat;
    let significand = FRACTION_RANGE as nat + zoom.fraction();
    lemma_pow2_pos(shift);
    lemma_pow2_pos(power);
    lemma_pow2_adds(power, shift);
    lemma_mul_is_commutative(significand as int, pow2(power) as int);
    lemma_div_multiples_vanish_quotient(pow2(power) as int, significand as int, pow2(shift) as int);
}

proof fn lemma_fraction_bound(zoom: Zoom)
    ensures
        zoom.fraction() < FRACTION_RANGE,
        FRACTION_RANGE == pow2(52),
{
    lemma2_to64_rest();
    lemma_mod_bound(zoom.bits as int, FRACTION_RANGE as int);
}

/// What is left of a significand after such a shift fits in a byte.
pub(crate) proof fn lemma_significand_shifted(significand: nat, shift: nat)
    requires
        significand < 0x20_0000_0000_0000,
        45 <= shift,
    ensures
        significand / pow2(shift) < 256,
{
    lemma2_to64_rest();
    if 45 < shift {
        lemma_pow2_strictly_increases(45, shift);
    }
    let quotient = significand / pow2(shift);
    lemma_fundamental_div_mod(significand as int, pow2(shift) as int);
    lemma_mod_bound(significand as int, pow2(shift) as int);
    if quotient >= 256 {
        lemma_mul_inequality(256, quotient as int, pow2(shift) as int);
        lemma_mul_is_commutative(quotient as int, pow2(shift) as int);
        assert(256 * pow2(shift) >= 256 * pow2(45));
    }
}

} // verus!
