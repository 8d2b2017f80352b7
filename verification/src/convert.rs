use vstd::prelude::*;

verus! {

// Half-precision values are carried throughout this crate as their 16-bit
// pattern (1 sign bit, 5 exponent bits, 10 mantissa bits), and full-precision
// values as their 32-bit pattern (1 sign bit, 8 exponent bits, 23 mantissa
// bits). Widening a half-precision value to full precision is exact; the
// functions here state and implement both directions of the conversion at
// the bit level, so the numeric policy of the lookup caches — widen, apply
// the function in full precision, round back to half precision — can be
// stated precisely.

/// Exact widening of the half-precision value with pattern `h` to the
/// 32-bit pattern of the same numeric value. Signed zeros keep their sign,
/// subnormals are normalized into the wider exponent range, infinities map
/// to infinities, and NaN patterns map to quiet NaNs that keep the payload.
pub open spec fn spec_widen_half_bits(h: u16) -> u32 {
    if h & 0x7FFF == 0 {
        // signed zero
        (h as u32) << 16
    } else {
        let sign = ((h & 0x8000) as u32) << 16;
        let hexp = (h & 0x7C00) as u32;
        let hman = (h & 0x03FF) as u32;
        if hexp == 0x7C00 {
            if hman == 0 {
                // infinity
                sign | 0x7F80_0000
            } else {
                // NaN: keep the payload, force the quiet bit
                sign | 0x7FC0_0000 | (hman << 13)
            }
        } else if hexp == 0 {
            // subnormal: normalize by the position of the highest set bit
            let e = spec_subnormal_shift(hman);
            sign | (((112 - e) as u32) << 23) | ((hman << ((14 + e) as u32)) & 0x007F_FFFF)
        } else {
            // normal: rebias the exponent from 15 to 127
            sign | ((((hexp >> 10) + 112) as u32) << 23) | (hman << 13)
        }
    }
}

/// For a half-precision subnormal mantissa `hman` (`1 <= hman <= 0x3FF`),
/// how many positions its highest set bit lies below bit 9.
pub open spec fn spec_subnormal_shift(hman: u32) -> u32 {
    if hman >= 0x200 {
        0
    } else if hman >= 0x100 {
        1
    } else if hman >= 0x80 {
        2
    } else if hman >= 0x40 {
        3
    } else if hman >= 0x20 {
        4
    } else if hman >= 0x10 {
        5
    } else if hman >= 0x8 {
        6
    } else if hman >= 0x4 {
        7
    } else if hman >= 0x2 {
        8
    } else {
        9
    }
}

/// Rounding of the full-precision value with pattern `x` to half precision:
/// round to nearest, ties to even. Values too large for half precision give
/// an infinity, values too small give a signed zero or a subnormal, and NaN
/// patterns give a quiet NaN that keeps the top of the payload.
pub open spec fn spec_narrow_to_half_bits(x: u32) -> u16 {
    let sign = x & 0x8000_0000;
    let exp = x & 0x7F80_0000;
    let man = x & 0x007F_FFFF;
    if exp == 0x7F80_0000 {
        // infinity or NaN
        let nan_bit: u32 = if man == 0 {
            0
        } else {
            0x200
        };
        ((sign >> 16) | 0x7C00 | nan_bit | (man >> 13)) as u16
    } else {
        let sign16 = sign >> 16;
        // e32 is the biased 32-bit exponent; the half-precision biased
        // exponent would be e32 - 112
        let e32 = exp >> 23;
        if e32 >= 143 {
            // overflows the half-precision exponent range: infinity
            (sign16 | 0x7C00) as u16
        } else if e32 <= 112 {
            // underflows into a half-precision subnormal or zero
            if e32 < 102 {
                // too small even for the smallest subnormal half
                sign16 as u16
            } else {
                let full_man = man | 0x0080_0000;
                let shifted = full_man >> ((126 - e32) as u32);
                let round_bit = 1u32 << ((125 - e32) as u32);
                if full_man & round_bit != 0 && full_man & ((3 * round_bit - 1) as u32) != 0 {
                    (sign16 | ((shifted + 1) as u32)) as u16
                } else {
                    (sign16 | shifted) as u16
                }
            }
        } else {
            // a normal half-precision value, rounded to nearest, ties to even
            let hexp = ((e32 - 112) as u32) << 10;
            let hman = man >> 13;
            if man & 0x1000 != 0 && man & 0x2FFF != 0 {
                ((sign16 | hexp | hman) + 1) as u16
            } else {
                (sign16 | hexp | hman) as u16
            }
        }
    }
}

/// Exact widening of a half-precision bit pattern to the full-precision bit
/// pattern of the same numeric value.
pub fn widen_half_bits(h: u16) -> (r: u32)
    ensures
        r == spec_widen_half_bits(h),
{
    if h & 0x7FFF == 0 {
        return (h as u32) << 16;
    }
    let sign: u32 = ((h & 0x8000) as u32) << 16;
    let hexp: u32 = (h & 0x7C00) as u32;
    let hman: u32 = (h & 0x03FF) as u32;
    if hexp == 0x7C00 {
        if hman == 0 {
            sign | 0x7F80_0000
        } else {
            sign | 0x7FC0_0000 | (hman << 13)
        }
    } else if hexp == 0 {
        let e: u32 = subnormal_shift(hman);
        sign | ((112 - e) << 23) | ((hman << (14 + e)) & 0x007F_FFFF)
    } else {
        assert(hexp >> 10 <= 30) by (bit_vector)
            requires
                hexp == (h & 0x7C00) as u32 && hexp != 0x7C00,
        ;
        sign | (((hexp >> 10) + 112) << 23) | (hman << 13)
    }
}

fn subnormal_shift(hman: u32) -> (r: u32)
    ensures
        r == spec_subnormal_shift(hman),
        r <= 9,
{
    if hman >= 0x200 {
        0
    } else if hman >= 0x100 {
        1
    } else if hman >= 0x80 {
        2
    } else if hman >= 0x40 {
        3
    } else if hman >= 0x20 {
        4
    } else if hman >= 0x10 {
        5
    } else if hman >= 0x8 {
        6
    } else if hman >= 0x4 {
        7
    } else if hman >= 0x2 {
        8
    } else {
        9
    }
}

/// Rounds a full-precision bit pattern to the nearest half-precision bit
/// pattern, ties to even.
pub fn narrow_to_half_bits(x: u32) -> (r: u16)
    ensures
        r == spec_narrow_to_half_bits(x),
{
    let sign: u32 = x & 0x8000_0000;
    let exp: u32 = x & 0x7F80_0000;
    let man: u32 = x & 0x007F_FFFF;
    if exp == 0x7F80_0000 {
        let nan_bit: u32 = if man == 0 {
            0
        } else {
            0x200
        };
        assert((sign >> 16) | 0x7C00 | nan_bit | (man >> 13) < 0x10000) by (bit_vector)
            requires
                sign == x & 0x8000_0000 && man == x & 0x007F_FFFF && (nan_bit == 0 || nan_bit
                    == 0x200),
        ;
        return ((sign >> 16) | 0x7C00 | nan_bit | (man >> 13)) as u16;
    }
    let sign16: u32 = sign >> 16;
    let e32: u32 = exp >> 23;
    assert(sign16 <= 0x8000 && e32 <= 254 && man <= 0x007F_FFFF) by (bit_vector)
        requires
            sign16 == (x & 0x8000_0000) >> 16 && e32 == (x & 0x7F80_0000) >> 23 && man == x
                & 0x007F_FFFF && x & 0x7F80_0000 != 0x7F80_0000,
    ;
    if e32 >= 143 {
        (sign16 | 0x7C00) as u16
    } else if e32 <= 112 {
        if e32 < 102 {
            sign16 as u16
        } else {
            let full_man: u32 = man | 0x0080_0000;
            let sh: u32 = 126 - e32;
            let kb: u32 = 125 - e32;
            let shifted: u32 = full_man >> sh;
            let round_bit: u32 = 1u32 << kb;
            assert(shifted <= 0x400 && 1 <= round_bit && round_bit <= 0x0080_0000) by (bit_vector)
                requires
                    full_man == (x & 0x007F_FFFF) | 0x0080_0000 && shifted == full_man >> sh
                        && round_bit == 1u32 << kb && 14 <= sh && sh <= 24 && 13 <= kb && kb <= 23,
            ;
            if full_man & round_bit != 0 && full_man & (3 * round_bit - 1) != 0 {
                (sign16 | (shifted + 1)) as u16
            } else {
                (sign16 | shifted) as u16
            }
        }
    } else {
        let he: u32 = e32 - 112;
        let hexp: u32 = he << 10;
        let hman: u32 = man >> 13;
        assert(hexp <= 0x7800 && hman <= 0x3FF && (sign16 | hexp | hman) <= 0xFBFF) by (bit_vector)
            requires
                1 <= he && he <= 30 && hexp == he << 10 && man <= 0x007F_FFFF && hman == man >> 13
                    && sign16 <= 0x8000,
        ;
        if man & 0x1000 != 0 && man & 0x2FFF != 0 {
            ((sign16 | hexp | hman) + 1) as u16
        } else {
            (sign16 | hexp | hman) as u16
        }
    }
}

} // verus!
