use vstd::prelude::*;

verus! {

/// The 16-bit integer that a 32-bit float sample narrows to.
///
/// The clip transform stores each sample as the bit pattern of a 32-bit
/// float (sign bit, 8-bit biased exponent, 23-bit mantissa).  Narrowing
/// truncates the value toward zero — no rounding, no scaling — saturates at
/// the 16-bit signed bounds, and sends an undefined value (all exponent bits
/// set with a nonzero mantissa) to zero.
pub open spec fn sample_to_i16(bits: u32) -> i16 {
    let sign = bits >> 31u32;
    let expo = (bits >> 23u32) & 0xff;
    let mant = bits & 0x7f_ffff;
    if expo == 255 && mant != 0 {
        0
    } else if expo < 127 {
        0
    } else if expo >= 142 {
        if sign == 1 {
            i16::MIN
        } else {
            i16::MAX
        }
    } else {
        let mag = ((0x80_0000u32 | mant) >> ((23 - (expo - 127)) as u32)) as int;
        if sign == 1 {
            (-mag) as i16
        } else {
            mag as i16
        }
    }
}

/// The whole sample sequence of a clip, narrowed to 16-bit PCM.
pub open spec fn pcm_of(samples: Seq<u32>) -> Seq<i16> {
    samples.map_values(|bits: u32| sample_to_i16(bits))
}

/// Narrows one stored sample to its 16-bit PCM value.
pub fn narrow_sample(bits: u32) -> (pcm: i16)
    ensures
        pcm == sample_to_i16(bits),
{
    let sign = bits >> 31;
    let expo = (bits >> 23) & 0xff;
    let mant = bits & 0x7f_ffff;
    if expo == 255 && mant != 0 {
        0
    } else if expo < 127 {
        0
    } else if expo >= 142 {
        if sign == 1 {
            i16::MIN
        } else {
            i16::MAX
        }
    } else {
        let shift = 23 - (expo - 127);
        let mag = (0x80_0000 | mant) >> shift;
        assert(mag <= 32767) by (bit_vector)
            requires
                mant == bits & 0x7f_ffff,
                expo == (bits >> 23u32) & 0xff,
                127 <= expo < 142,
                shift == 23 - (expo - 127),
                mag == (0x80_0000u32 | mant) >> shift,
        ;
        if sign == 1 {
            -(mag as i16)
        } else {
            mag as i16
        }
    }
}

} // verus!
