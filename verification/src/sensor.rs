//! Readings of the temperature sensor.
//!
//! The sensor's text holds a number of thousandths of a degree Celsius. The
//! caller parses the text into a single-precision binary number and hands over
//! its thirty-two bits: one sign bit, eight exponent bits, twenty-three
//! fraction bits. This module takes the whole thousandths out of them, so that
//! a threshold counted in thousandths lies below, at or above the reading
//! exactly as it lies below, at or above the number.

use vstd::prelude::*;
use vstd::arithmetic::div_mod::{lemma_basic_div, lemma_fundamental_div_mod, lemma_small_mod};
use vstd::arithmetic::power2::{
    lemma2_to64, lemma_pow2_pos, lemma_pow2_strictly_increases, lemma_pow2_unfold, pow2,
};
use crate::curve::Millidegrees;

verus! {

/// The reading that stands in for one that cannot be had: 45 degrees.
pub const FALLBACK_READING: Millidegrees = 45_000;

/// The sign bit is set.
pub open spec fn is_negative(bits: u32) -> bool {
    bits >= 0x8000_0000
}

/// The eight exponent bits.
pub open spec fn exponent_of(bits: u32) -> int {
    (bits as int / 0x80_0000) % 0x100
}

/// The twenty-three fraction bits.
pub open spec fn fraction_of(bits: u32) -> int {
    bits as int % 0x80_0000
}

/// The bits are no number at all.
pub open spec fn is_not_a_number(bits: u32) -> bool {
    exponent_of(bits) == 0xff && fraction_of(bits) != 0
}

/// The bits are an infinity.
pub open spec fn is_infinite(bits: u32) -> bool {
    exponent_of(bits) == 0xff && fraction_of(bits) == 0
}

/// The significand: the size of a finite number is `significand_of(bits)`
/// times two to the power `scale_of(bits)`.
pub open spec fn significand_of(bits: u32) -> int {
    if exponent_of(bits) == 0 {
        fraction_of(bits)
    } else {
        0x80_0000 + fraction_of(bits)
    }
}

/// The power of two by which the significand is scaled.
pub open spec fn scale_of(bits: u32) -> int {
    if exponent_of(bits) == 0 {
        -149
    } else {
        exponent_of(bits) - 150
    }
}

/// The largest integer that is not above the finite number that the bits hold.
pub open spec fn whole_part(bits: u32) -> int {
    let significand = significand_of(bits);
    let scale = scale_of(bits);
    if scale >= 0 {
        let size = significand * pow2(scale as nat);
        if is_negative(bits) {
            -size
        } else {
            size
        }
    } else {
        let divisor = pow2((-scale) as nat) as int;
        if !is_negative(bits) {
            significand / divisor
        } else if significand % divisor == 0 {
            -(significand / divisor)
        } else {
            -(significand / divisor) - 1
        }
    }
}

/// `v`, or the nearest value that a reading can hold.
pub open spec fn saturated(v: int) -> int {
    if v < i32::MIN {
        i32::MIN as int
    } else if v > i32::MAX {
        i32::MAX as int
    } else {
        v
    }
}

/// The reading that the bits hold: the number rounded down to a whole
/// thousandth of a degree and held within what a reading can hold. An
/// infinity is the highest or the lowest reading. What is no number counts
/// as the highest reading, so that the fan runs at full speed.
pub open spec fn reading_of(bits: u32) -> int {
    if is_not_a_number(bits) {
        i32::MAX as int
    } else if is_infinite(bits) {
        if is_negative(bits) {
            i32::MIN as int
        } else {
            i32::MAX as int
        }
    } else {
        saturated(whole_part(bits))
    }
}

/// The reading of a parse: that of the bits, or the fallback of 45 degrees
/// where the text was no number's.
pub open spec fn reading_of_parse(parsed: Option<u32>) -> int {
    match parsed {
        Some(bits) => reading_of(bits),
        None => FALLBACK_READING as int,
    }
}

/// The whole part is the number rounded down. With the number written as a
/// fraction of integers, `numerator / denominator`, the whole part is the one
/// integer `w` with `w * denominator <= numerator < (w + 1) * denominator`.
pub proof fn lemma_whole_part_rounds_down(bits: u32)
    requires
        exponent_of(bits) != 0xff,
    ensures
        ({
            let scale = scale_of(bits);
            let size = significand_of(bits) * pow2(
                if scale >= 0 {
                    scale as nat
                } else {
                    0
                },
            );
            let numerator = if is_negative(bits) {
                -size
            } else {
                size
            };
            let denominator = pow2(
                if scale >= 0 {
                    0
                } else {
                    (-scale) as nat
                },
            ) as int;
            &&& denominator > 0
            &&& whole_part(bits) * denominator <= numerator < (whole_part(bits) + 1) * denominator
        }),
{
    let scale = scale_of(bits);
    let significand = significand_of(bits);
    lemma2_to64();
    if scale >= 0 {
        assert(whole_part(bits) * 1 == whole_part(bits));
        assert((whole_part(bits) + 1) * 1 == whole_part(bits) + 1);
    } else {
        let divisor = pow2((-scale) as nat) as int;
        lemma_pow2_pos((-scale) as nat);
        lemma_fundamental_div_mod(significand, divisor);
        let q = significand / divisor;
        let r = significand % divisor;
        assert(0 <= r < divisor) by (nonlinear_arith)
            requires
                r == significand % divisor,
                divisor > 0,
        ;
        assert(significand * 1 == significand);
        assert(q * divisor == divisor * q) by (nonlinear_arith);
        assert((q + 1) * divisor == divisor * q + divisor) by (nonlinear_arith);
        assert((-q) * divisor == -(divisor * q)) by (nonlinear_arith);
        assert((-q - 1) * divisor == -(divisor * q) - divisor) by (nonlinear_arith);
        assert((-q + 1) * divisor == -(divisor * q) + divisor) by (nonlinear_arith);
        assert((-q - 1 + 1) * divisor == -(divisor * q)) by (nonlinear_arith);
    }
}

/// The reading that the bits of a single-precision number hold.
pub fn reading_from_bits(bits: u32) -> (reading: Millidegrees)
    ensures
        reading == reading_of(bits),
{
    let negative = bits >= 0x8000_0000;
    let exponent: u32 = (bits / 0x80_0000) % 0x100;
    let fraction: u32 = bits % 0x80_0000;
    if exponent == 0xff {
        return if fraction != 0 || !negative {
            i32::MAX
        } else {
            i32::MIN
        };
    }
    let significand: u64 = if exponent == 0 {
        fraction as u64
    } else {
        0x80_0000 + fraction as u64
    };
    proof {
        lemma2_to64();
    }
    if exponent >= 150 {
        let scale: u32 = exponent - 150;
        if scale >= 8 {
            proof {
                if scale > 8 {
                    lemma_pow2_strictly_increases(8, scale as nat);
                }
                assert(significand * pow2(scale as nat) >= 0x8000_0000) by (nonlinear_arith)
                    requires
                        significand >= 0x80_0000,
                        pow2(scale as nat) >= 0x100,
                ;
            }
            return if negative {
                i32::MIN
            } else {
                i32::MAX
            };
        }
        let mut size: u64 = significand;
        let mut doubled: u32 = 0;
        while doubled < scale
            invariant
                doubled <= scale < 8,
                significand < 0x100_0000,
                size == significand * pow2(doubled as nat),
                size < 0x100_0000 * pow2(doubled as nat),
                pow2(doubled as nat) <= 0x80,
            decreases scale - doubled,
        {
            proof {
                lemma2_to64();
                lemma_pow2_unfold((doubled + 1) as nat);
                if doubled + 1 < 7 {
                    lemma_pow2_strictly_increases((doubled + 1) as nat, 7);
                }
                assert(significand * (2 * pow2(doubled as nat)) == 2 * (significand * pow2(
                    doubled as nat,
                ))) by (nonlinear_arith);
            }
            size = size * 2;
            doubled += 1;
        }
        if negative {
            -(size as i64) as i32
        } else {
            size as i32
        }
    } else {
        let halvings: u32 = if exponent == 0 {
            149
        } else {
            150 - exponent
        };
        if halvings >= 24 {
            proof {
                if halvings > 24 {
                    lemma_pow2_strictly_increases(24, halvings as nat);
                }
                lemma_basic_div(significand as int, pow2(halvings as nat) as int);
                lemma_small_mod(significand as nat, pow2(halvings as nat));
            }
            return if negative && significand != 0 {
                -1
            } else {
                0
            };
        }
        let mut divisor: u64 = 1;
        let mut doubled: u32 = 0;
        while doubled < halvings
            invariant
                doubled <= halvings < 24,
                divisor == pow2(doubled as nat),
                divisor <= 0x80_0000,
            decreases halvings - doubled,
        {
            proof {
                lemma2_to64();
                lemma_pow2_unfold((doubled + 1) as nat);
                if doubled + 1 < 23 {
                    lemma_pow2_strictly_increases((doubled + 1) as nat, 23);
                }
            }
            divisor = divisor * 2;
            doubled += 1;
        }
        let quotient: u64 = significand / divisor;
        let remainder: u64 = significand % divisor;
        if !negative {
            quotient as i32
        } else if remainder == 0 {
            -(quotient as i64) as i32
        } else {
            (-(quotient as i64) - 1) as i32
        }
    }
}

/// The reading of a parse: that of the bits, or the fallback of 45 degrees
/// where the text was no number's.
pub fn reading_from_parse(parsed: Option<u32>) -> (reading: Millidegrees)
    ensures
        reading == reading_of_parse(parsed),
{
    match parsed {
        Some(bits) => reading_from_bits(bits),
        None => FALLBACK_READING,
    }
}

} // verus!
