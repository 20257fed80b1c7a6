//! Packing of a fractional divider ratio into a multisynth's eight parameter
//! registers.
//!
//! A ratio `int_part + frac_num / frac_denom` is stored as three fields:
//! `p1` and `p2` carry the ratio in units of 1/128, `p3` the denominator.
//! The eight bytes hold `p3` in 20 bits, `p1` in 18 and `p2` in 20, most
//! significant byte first, with the output-divider code sharing a byte with
//! the top of `p1`.

use vstd::prelude::*;
use vstd::arithmetic::div_mod::{lemma_fundamental_div_mod, lemma_mod_bound};
use crate::error::Error;
use crate::synth::OutputDivider;

verus! {

/// Largest value a 20-bit numerator or denominator can take.
pub const FRACTION_MAX: u32 = 0xFFFFF;

/// The bits of `x` from weight `unit` upward, `span` values wide: with
/// `unit = 2^lo` and `span = 2^w` this is the field `x[lo + w - 1 : lo]`.
pub open spec fn field(x: int, unit: int, span: int) -> int {
    (x / unit) % span
}

/// Whether numerator and denominator can be programmed: the denominator is
/// not zero and both fit in 20 bits.
pub open spec fn valid_fraction(frac_num: int, frac_denom: int) -> bool {
    0 < frac_denom <= FRACTION_MAX && 0 <= frac_num <= FRACTION_MAX
}

/// `p1`: the whole 128ths of the ratio, offset by 512.
pub open spec fn p1(int_part: int, frac_num: int, frac_denom: int) -> int {
    128 * int_part + (128 * frac_num) / frac_denom - 512
}

/// `p2`: what is left of the numerator after the whole 128ths are taken out.
pub open spec fn p2(frac_num: int, frac_denom: int) -> int {
    (128 * frac_num) % frac_denom
}

/// `p3`: the denominator, or 1 where there is no fractional part.
pub open spec fn p3(frac_num: int, frac_denom: int) -> int {
    if frac_num == 0 {
        1
    } else {
        frac_denom
    }
}

/// One if either of two bits is one.
pub open spec fn either(a: int, b: int) -> int {
    if a == 1 || b == 1 {
        1
    } else {
        0
    }
}

/// The byte in which the two top bits of `p1` and the three-bit
/// output-divider code meet: the bitwise or of the two, taken bit by bit.
pub open spec fn shared_with_code(top: int, code: int) -> int {
    4 * ((code / 4) % 2) + 2 * either((top / 2) % 2, (code / 2) % 2) + either(top % 2, code % 2)
}

/// The eight register bytes for the fields `p1`, `p2`, `p3` and the
/// output-divider code `r_code`, which is below 8.
pub open spec fn payload(p1: int, p2: int, p3: int, r_code: u8) -> Seq<u8> {
    seq![
        field(p3, 0x100, 0x100) as u8,
        field(p3, 1, 0x100) as u8,
        shared_with_code(field(p1, 0x1_0000, 4), r_code as int) as u8,
        field(p1, 0x100, 0x100) as u8,
        field(p1, 1, 0x100) as u8,
        (16 * field(p3, 0x1_0000, 16) + field(p2, 0x1_0000, 16)) as u8,
        field(p2, 0x100, 0x100) as u8,
        field(p2, 1, 0x100) as u8,
    ]
}

/// The eight register bytes for the ratio `int_part + frac_num / frac_denom`
/// followed by the output divider `r_div`.
pub open spec fn ratio_payload(
    int_part: int,
    frac_num: int,
    frac_denom: int,
    r_div: OutputDivider,
) -> Seq<u8> {
    payload(
        p1(int_part, frac_num, frac_denom),
        p2(frac_num, frac_denom),
        p3(frac_num, frac_denom),
        r_div.bits(),
    )
}

/// A ratio without a fractional part is stored as `p1 = 128 * int_part - 512`,
/// `p2 = 0` and `p3 = 1`, whatever nonzero denominator comes with it.
pub proof fn lemma_integer_fields(int_part: int, frac_denom: int, r_div: OutputDivider)
    requires
        frac_denom != 0,
    ensures
        p1(int_part, 0, frac_denom) == 128 * int_part - 512,
        p2(0, frac_denom) == 0,
        p3(0, frac_denom) == 1,
        ratio_payload(int_part, 0, frac_denom, r_div) == payload(
            128 * int_part - 512,
            0,
            1,
            r_div.bits(),
        ),
{
    assert(0int / frac_denom == 0 && 0int % frac_denom == 0) by (nonlinear_arith)
        requires
            frac_denom != 0,
    ;
}

/// `p2` is a proper remainder, and `p1` and `p2` together hold the ratio
/// exactly: `(p1 + 512) * frac_denom + p2 = 128 * (int_part * frac_denom + frac_num)`.
pub proof fn lemma_fields_hold_ratio(int_part: int, frac_num: int, frac_denom: int)
    requires
        frac_denom > 0,
    ensures
        0 <= p2(frac_num, frac_denom) < frac_denom,
        (p1(int_part, frac_num, frac_denom) + 512) * frac_denom + p2(frac_num, frac_denom) == 128
            * (int_part * frac_denom + frac_num),
{
    lemma_fundamental_div_mod(128 * frac_num, frac_denom);
    lemma_mod_bound(128 * frac_num, frac_denom);
    let q = (128 * frac_num) / frac_denom;
    assert((128 * int_part + q) * frac_denom == 128 * (int_part * frac_denom) + frac_denom * q)
        by (nonlinear_arith);
}

/// How masks and shifts on 32-bit fields read as quotients and remainders.
proof fn lemma_field_bytes(x: u32)
    by (bit_vector)
    ensures
        (x & 0x0000_FF00) >> 8 == (x / 0x100) % 0x100,
        (x & 0x0003_0000) >> 16 == (x / 0x1_0000) % 4,
        (x & 0x000F_0000) >> 16 == (x / 0x1_0000) % 16,
        (x & 0x000F_0000) >> 12 == 16 * ((x / 0x1_0000) % 16),
        (x as u8) as u32 == x % 0x100,
{
}

/// The bitwise or of two top bits and a three-bit code, bit by bit.
proof fn lemma_shared_with_code(top: u8, code: u8)
    by (bit_vector)
    requires
        top < 4,
        code < 8,
    ensures
        top | code == 4 * ((code / 4) % 2) + 2 * (if (top / 2) % 2 == 1 || (code / 2) % 2 == 1 {
            1int
        } else {
            0int
        }) + (if top % 2 == 1 || code % 2 == 1 {
            1int
        } else {
            0int
        }),
{
}

/// The byte shared by the top nibbles of `p3` and `p2`: the two do not overlap,
/// so they combine by addition.
proof fn lemma_shared_byte(high: u32, low: u32)
    by (bit_vector)
    ensures
        ((high & 0x000F_0000) >> 12) | ((low & 0x000F_0000) >> 16) == 16 * ((high / 0x1_0000) % 16)
            + (low / 0x1_0000) % 16,
{
}

/// Encodes the ratio `int_part + frac_num / frac_denom` and the output
/// divider `r_div` as a multisynth's eight register bytes, and tells whether
/// the unit then runs as a pure integer divider.
///
/// The fraction is refused with [`Error::InvalidParameter`] exactly when its
/// denominator is zero or either part needs more than 20 bits. `p1` has no
/// value for an integer part below 4, so such a part is not accepted.
pub fn encode(
    int_part: u16,
    frac_num: u32,
    frac_denom: u32,
    r_div: OutputDivider,
) -> (r: Result<([u8; 8], bool), Error>)
    requires
        int_part >= 4,
    ensures
        r is Ok <==> valid_fraction(frac_num as int, frac_denom as int),
        r is Err ==> r == Err::<([u8; 8], bool), Error>(Error::InvalidParameter),
        r matches Ok((bytes, integer_mode)) ==> {
            &&& bytes@ == ratio_payload(int_part as int, frac_num as int, frac_denom as int, r_div)
            &&& integer_mode == (frac_num == 0)
        },
{
    if frac_denom == 0 {
        return Err(Error::InvalidParameter);
    }
    if frac_num > FRACTION_MAX {
        return Err(Error::InvalidParameter);
    }
    if frac_denom > FRACTION_MAX {
        return Err(Error::InvalidParameter);
    }
    let p1: u32;
    let p2: u32;
    let p3: u32;

    if frac_num == 0 {
        p1 = 128 * (int_part as u32) - 512;
        p2 = 0;
        p3 = 1;
        proof {
            lemma_integer_fields(int_part as int, frac_denom as int, r_div);
        }
    } else {
        let scaled: u64 = 128u64 * (frac_num as u64);
        let ratio: u32 = (scaled / (frac_denom as u64)) as u32;
        proof {
            lemma_fundamental_div_mod(scaled as int, frac_denom as int);
            lemma_mod_bound(scaled as int, frac_denom as int);
            assert(frac_denom * ratio <= scaled) by (nonlinear_arith)
                requires
                    scaled == frac_denom * (scaled as int / frac_denom as int) + scaled as int
                        % frac_denom as int,
                    0 <= scaled as int % frac_denom as int,
                    ratio == scaled as int / frac_denom as int,
            ;
            assert(ratio <= scaled) by (nonlinear_arith)
                requires
                    frac_denom * ratio <= scaled,
                    frac_denom >= 1,
            ;
        }
        p1 = 128 * (int_part as u32) + ratio - 512;
        p2 = 128 * frac_num - frac_denom * ratio;
        p3 = frac_denom;
    }
    let code: u8 = r_div.bits();
    let bytes: [u8; 8] = [
        ((p3 & 0x0000FF00) >> 8) as u8,
        #[verifier::truncate] (p3 as u8),
        ((p1 & 0x00030000) >> 16) as u8 | code,
        ((p1 & 0x0000FF00) >> 8) as u8,
        #[verifier::truncate] (p1 as u8),
        (((p3 & 0x000F0000) >> 12) | ((p2 & 0x000F0000) >> 16)) as u8,
        ((p2 & 0x0000FF00) >> 8) as u8,
        #[verifier::truncate] (p2 as u8),
    ];
    proof {
        lemma_field_bytes(p1);
        lemma_field_bytes(p2);
        lemma_field_bytes(p3);
        lemma_shared_byte(p3, p2);
        lemma_shared_with_code(((p1 & 0x00030000) >> 16) as u8, code);
        assert(bytes@ =~= payload(p1 as int, p2 as int, p3 as int, code));
    }
    Ok((bytes, frac_num == 0))
}

} // verus!
