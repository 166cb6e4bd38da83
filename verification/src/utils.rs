//! Clamping, and the step from a colour channel to a byte.
use vstd::prelude::*;
use vstd::arithmetic::div_mod::{lemma_basic_div, lemma_div_multiples_vanish_quotient};
use vstd::arithmetic::power2::{
    lemma2_to64, lemma2_to64_rest, lemma_pow2_adds, lemma_pow2_pos, pow2,
};
use vstd::bits::lemma_u64_shr_is_div;
use crate::scalar::{Scalar, FRACTION_RANGE, ZERO_BITS};
use crate::vec3::Color;

verus! {

/// The pattern of `0.999`, the highest channel value that is kept.
pub const CHANNEL_LIMIT_BITS: u64 = 0x3fef_f7ce_d916_872b;

/// `x` brought into `[min, max]`: `min` where `x` is below it, `max` where
/// `x` is above it, else `x` itself, also where `x` is not a number.
pub open spec fn clamped(x: Scalar, min: Scalar, max: Scalar) -> Scalar {
    if x.less(min) {
        min
    } else if max.less(x) {
        max
    } else {
        x
    }
}

/// Brings `x` into `[min, max]`.
pub fn clamp(x: Scalar, min: Scalar, max: Scalar) -> (r: Scalar)
    ensures
        r == clamped(x, min, max),
        !x.nan() && !min.nan() && !max.nan() && min.rank() <= max.rank() ==> min.rank() <= r.rank()
            <= max.rank(),
{
    if x.lt(min) {
        return min;
    }
    if x.gt(max) {
        return max;
    }
    x
}

/// The byte of a colour channel: the channel is clamped to `[0, 0.999]` and
/// the byte is the whole part of 256 times that. With the value counted in
/// units of 2^-1074 this is `256 * value / 2^1074`, rounded down. What is
/// not a number gives 0.
pub open spec fn quantized(channel: Scalar) -> int {
    if channel.nan() {
        0
    } else {
        (256 * clamped(
            channel,
            Scalar { bits: ZERO_BITS },
            Scalar { bits: CHANNEL_LIMIT_BITS },
        ).value()) / (pow2(1074) as int)
    }
}

/// For a number in `[0, 1)`, the whole part of 256 times its value comes
/// from the significand alone: nothing below an exponent field of 1015
/// (2^-8), and above it the significand shifted right by what is left to
/// 1067.
proof fn lemma_whole_part(c: Scalar)
    requires
        !c.negative(),
        c.exponent() <= 1022,
    ensures
        c.exponent() < 1015 ==> (256 * c.value()) / (pow2(1074) as int) == 0,
        c.exponent() >= 1015 ==> (256 * c.value()) / (pow2(1074) as int) == c.significand() / (
        pow2((1067 - c.exponent()) as nat) as int),
{
    let e = c.exponent();
    let sig = c.significand();
    let top = pow2(1074) as int;
    lemma_pow2_pos(1074);
    if e == 0 {
        lemma_pow2_adds(60, 1014);
        lemma_pow2_pos(1014);
        assert(pow2(60) == 0x1000_0000_0000_0000) by {
            lemma2_to64_rest();
        }
        assert(256 * sig < top) by (nonlinear_arith)
            requires
                0 <= sig < 0x10_0000_0000_0000,
                top == 0x1000_0000_0000_0000 * pow2(1014),
                pow2(1014) >= 1,
        ;
        lemma_basic_div(256 * sig, top);
    } else {
        let low = pow2((e - 1) as nat) as int;
        let scale = pow2((e + 7) as nat) as int;
        lemma2_to64();
        lemma_pow2_adds(8, (e - 1) as nat);
        lemma_pow2_pos((e + 7) as nat);
        assert(256 * (sig * low) == sig * scale) by (nonlinear_arith)
            requires
                scale == 256 * low,
        ;
        if e < 1015 {
            lemma_pow2_adds((e + 7) as nat, (1067 - e) as nat);
            lemma_pow2_adds(53, (1014 - e) as nat);
            lemma_pow2_pos((1014 - e) as nat);
            assert(pow2(53) == 0x20_0000_0000_0000) by {
                lemma2_to64_rest();
            }
            let rest = pow2((1067 - e) as nat) as int;
            let spare = pow2((1014 - e) as nat) as int;
            assert(sig * scale < top) by (nonlinear_arith)
                requires
                    0 <= sig < 0x20_0000_0000_0000,
                    top == scale * rest,
                    rest == 0x20_0000_0000_0000 * spare,
                    spare >= 1,
                    scale >= 1,
            ;
            assert(0 <= sig * scale) by (nonlinear_arith)
                requires
                    0 <= sig,
                    scale >= 1,
            ;
            lemma_basic_div(sig * scale, top);
        } else {
            let rest = pow2((1067 - e) as nat) as int;
            lemma_pow2_adds((e + 7) as nat, (1067 - e) as nat);
            lemma_pow2_pos((1067 - e) as nat);
            lemma_div_multiples_vanish_quotient(scale, sig, rest);
            assert(sig * scale == scale * sig) by (nonlinear_arith);
        }
    }
}

/// The byte of a colour channel.
pub fn to_byte(channel: Scalar) -> (byte: u8)
    ensures
        byte == quantized(channel),
{
    if channel.is_nan() {
        return 0;
    }
    let kept = clamp(channel, Scalar::zero(), Scalar::from_bits(CHANNEL_LIMIT_BITS));
    if kept.is_negative() {
        proof {
            assert(kept.magnitude() == 0);
            assert(kept.size() == 0);
            lemma_pow2_pos(1074);
        }
        return 0;
    }
    let exponent: u64 = kept.bits / FRACTION_RANGE;
    let fraction: u64 = kept.bits % FRACTION_RANGE;
    proof {
        lemma_whole_part(kept);
    }
    if exponent < 1015 {
        return 0;
    }
    let significand: u64 = FRACTION_RANGE + fraction;
    let shift: u64 = 1067 - exponent;
    proof {
        lemma_u64_shr_is_div(significand, shift);
        assert((significand >> shift) < 256) by (bit_vector)
            requires
                significand < 0x20_0000_0000_0000,
                45 <= shift <= 52,
        ;
    }
    (significand >> shift) as u8
}

/// The three bytes of a pixel whose colour, averaged over its samples and
/// gamma-corrected, is `pixel_color`.
pub fn write_color(pixel_color: Color) -> (rgb: [u8; 3])
    ensures
        rgb[0] == quantized(pixel_color.x),
        rgb[1] == quantized(pixel_color.y),
        rgb[2] == quantized(pixel_color.z),
{
    [to_byte(pixel_color.x), to_byte(pixel_color.y), to_byte(pixel_color.z)]
}

} // verus!
