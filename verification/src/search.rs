//! The divider search: from a target frequency to the output-stage dividers
//! and then to the PLL's multiplier and fraction.
//!
//! The output stage divides the PLL frequency by an even multisynth divider
//! and a power-of-two output divider. The search takes the largest total
//! divider that keeps the PLL at or below its ceiling, picks the smallest
//! output divider that is at least a 900th of it, which brings the
//! multisynth divider into its range, and lets the PLL's fractional
//! multiplier absorb what the rounding left over.

use vstd::prelude::*;
use vstd::arithmetic::div_mod::{lemma_fundamental_div_mod, lemma_mod_bound, lemma_small_mod};
use crate::synth::OutputDivider;

verus! {

/// The PLL frequency ceiling used when an output frequency is set, in Hz.
pub const MAX_PLL_FREQ: u32 = 900_000_000;

/// The denominator used for the PLL's fraction when an output frequency is
/// set: the largest one the chip takes.
pub const PLL_DENOM: u32 = 0xFFFFF;

/// Smallest divider a multisynth accepts.
pub const MS_DIVIDER_MIN: u16 = 6;

/// Largest divider a multisynth accepts.
pub const MS_DIVIDER_MAX: u16 = 1800;

/// Smallest PLL multiplier the chip accepts.
pub const PLL_MULT_MIN: u8 = 15;

/// Largest PLL multiplier the chip accepts.
pub const PLL_MULT_MAX: u8 = 90;

/// Largest multisynth divider the search aims for before it resorts to a
/// larger output divider.
pub const MS_DIVIDER_TARGET: u16 = 900;

/// How often `freq` fits into `max_pll_freq`, kept to 16 bits.
pub open spec fn total_divider(max_pll_freq: int, freq: int) -> int {
    (max_pll_freq / freq) % 0x1_0000
}

/// The output divider chosen for a total divider: the smallest one that is
/// at least a 900th of it.
pub open spec fn output_divider(total: int) -> OutputDivider {
    OutputDivider::spec_min_divider(total / 900)
}

/// The multisynth divider for a total divider and an output divider: their
/// quotient rounded down to an even number, and at least 6.
pub open spec fn ms_divider(total: int, r_div: OutputDivider) -> int {
    let even = 2 * (r_div.quotient(total) / 2);
    if even < 6 {
        6
    } else {
        even
    }
}

/// The integer part of the PLL's multiplier: how often the crystal
/// frequency fits into the PLL frequency, kept to 8 bits.
pub open spec fn pll_multiplier(xtal_freq: int, pll_freq: int) -> int {
    (pll_freq / xtal_freq) % 0x100
}

/// The numerator of the PLL's fraction over `denom`: the part of the PLL
/// frequency that the integer multiplier leaves over, in `denom`-ths of the
/// crystal frequency, rounded down.
pub open spec fn pll_numerator(xtal_freq: int, pll_freq: int, denom: int) -> int {
    ((pll_freq % xtal_freq) * denom) / xtal_freq
}

/// The PLL frequency that a multiplier of `mult + num / denom` yields from
/// a crystal of `xtal_freq` Hz, rounded down to whole Hz.
pub open spec fn rebuilt_pll_freq(xtal_freq: int, mult: int, num: int, denom: int) -> int {
    xtal_freq * mult + (xtal_freq * num) / denom
}

/// The dividers and PLL coefficients that produce one output frequency.
pub struct Synthesis {
    /// Multisynth divider of the output stage.
    pub ms_divider: int,
    /// Output divider that follows the multisynth.
    pub r_div: OutputDivider,
    /// Integer part of the PLL's multiplier.
    pub mult: int,
    /// Numerator of the PLL's fraction over [`PLL_DENOM`].
    pub num: int,
}

/// What the search settles on for an output of `freq` Hz from a crystal of
/// `xtal_freq` Hz, with the PLL kept at or below [`MAX_PLL_FREQ`].
pub open spec fn synthesis(xtal_freq: int, freq: int) -> Synthesis {
    let total = total_divider(MAX_PLL_FREQ as int, freq);
    let r_div = output_divider(total);
    let ms = ms_divider(total, r_div);
    let pll_freq = freq * r_div.product(ms);
    Synthesis {
        ms_divider: ms,
        r_div,
        mult: pll_multiplier(xtal_freq, pll_freq),
        num: pll_numerator(xtal_freq, pll_freq, PLL_DENOM as int),
    }
}

/// Whatever the total divider, the dividers chosen for it can be
/// programmed: the multisynth divider is even and lies in `6..=1800`, and
/// the two together divide by no more than the total divider asks for,
/// unless that is below the multisynth's minimum of 6.
pub proof fn lemma_dividers_in_range(total: int)
    requires
        0 <= total < 0x1_0000,
    ensures
        output_divider(total).is_min_divider(total / 900),
        6 <= ms_divider(total, output_divider(total)) <= 1800,
        ms_divider(total, output_divider(total)) % 2 == 0,
        total >= 6 ==> output_divider(total).product(ms_divider(total, output_divider(total)))
            <= total,
        total < 6 ==> output_divider(total).product(ms_divider(total, output_divider(total))) == 6,
{
}

/// The dividers keep the PLL at or below its ceiling: where the two
/// frequencies are at least a factor of 6 apart, and their quotient fits 16
/// bits, `freq` times the two dividers is no more than `max_pll_freq`.
pub proof fn lemma_pll_freq_at_most_ceiling(max_pll_freq: int, freq: int)
    requires
        freq > 0,
        6 <= max_pll_freq / freq < 0x1_0000,
    ensures
        total_divider(max_pll_freq, freq) == max_pll_freq / freq,
        freq * output_divider(total_divider(max_pll_freq, freq)).product(
            ms_divider(
                total_divider(max_pll_freq, freq),
                output_divider(total_divider(max_pll_freq, freq)),
            ),
        ) <= max_pll_freq,
{
    let total = max_pll_freq / freq;
    lemma_small_mod(total as nat, 0x1_0000);
    lemma_dividers_in_range(total);
    let both = output_divider(total).product(ms_divider(total, output_divider(total)));
    lemma_fundamental_div_mod(max_pll_freq, freq);
    lemma_mod_bound(max_pll_freq, freq);
    assert(freq * both <= max_pll_freq) by (nonlinear_arith)
        requires
            freq > 0,
            both <= total,
            max_pll_freq == freq * total + max_pll_freq % freq,
            0 <= max_pll_freq % freq,
    ;
}

/// The coefficients found for a PLL frequency rebuild it from below: the
/// numerator is a proper one, and the frequency that multiplier and
/// fraction yield misses the one asked for by at most one step of the
/// fraction, `xtal_freq / denom`, and one Hz of rounding.
///
/// This holds wherever the multiplier fits its 8 bits.
pub proof fn lemma_pll_coeffs_accuracy(xtal_freq: int, pll_freq: int, denom: int)
    requires
        xtal_freq > 0,
        denom > 0,
        0 <= pll_freq < 0x100 * xtal_freq,
    ensures
        pll_multiplier(xtal_freq, pll_freq) == pll_freq / xtal_freq,
        0 <= pll_numerator(xtal_freq, pll_freq, denom) < denom,
        rebuilt_pll_freq(
            xtal_freq,
            pll_multiplier(xtal_freq, pll_freq),
            pll_numerator(xtal_freq, pll_freq, denom),
            denom,
        ) <= pll_freq,
        pll_freq - rebuilt_pll_freq(
            xtal_freq,
            pll_multiplier(xtal_freq, pll_freq),
            pll_numerator(xtal_freq, pll_freq, denom),
            denom,
        ) <= xtal_freq / denom + 1,
{
    let q = pll_freq / xtal_freq;
    let rest = pll_freq % xtal_freq;
    lemma_fundamental_div_mod(pll_freq, xtal_freq);
    lemma_mod_bound(pll_freq, xtal_freq);
    assert(0 <= q < 0x100) by (nonlinear_arith)
        requires
            pll_freq == xtal_freq * q + rest,
            0 <= rest < xtal_freq,
            0 <= pll_freq < 0x100 * xtal_freq,
    ;
    lemma_small_mod(q as nat, 0x100);

    let num = (rest * denom) / xtal_freq;
    let r2 = (rest * denom) % xtal_freq;
    lemma_fundamental_div_mod(rest * denom, xtal_freq);
    lemma_mod_bound(rest * denom, xtal_freq);
    assert(0 <= num < denom) by (nonlinear_arith)
        requires
            rest * denom == xtal_freq * num + r2,
            0 <= r2 < xtal_freq,
            0 <= rest < xtal_freq,
            denom > 0,
    ;

    let m = (xtal_freq * num) / denom;
    let r3 = (xtal_freq * num) % denom;
    lemma_fundamental_div_mod(xtal_freq * num, denom);
    lemma_mod_bound(xtal_freq * num, denom);
    let k = xtal_freq / denom;
    let r4 = xtal_freq % denom;
    lemma_fundamental_div_mod(xtal_freq, denom);
    lemma_mod_bound(xtal_freq, denom);
    assert(m <= rest) by (nonlinear_arith)
        requires
            xtal_freq * num == denom * m + r3,
            0 <= r3,
            rest * denom == xtal_freq * num + r2,
            0 <= r2,
            denom > 0,
    ;
    assert(rest - m <= k + 1) by (nonlinear_arith)
        requires
            xtal_freq * num == denom * m + r3,
            r3 < denom,
            rest * denom == xtal_freq * num + r2,
            r2 < xtal_freq,
            xtal_freq == denom * k + r4,
            r4 < denom,
            denom > 0,
    ;
    assert(xtal_freq * q + m == pll_freq - (rest - m));
}

/// With the largest denominator, a crystal of at least 1 kHz and a
/// multiplier of 15 or more, the frequency that the coefficients yield is
/// within a ten-thousandth of the PLL frequency asked for.
pub proof fn lemma_pll_within_ten_thousandth(xtal_freq: int, pll_freq: int)
    requires
        xtal_freq >= 1000,
        15 * xtal_freq <= pll_freq < 0x100 * xtal_freq,
    ensures
        rebuilt_pll_freq(
            xtal_freq,
            pll_multiplier(xtal_freq, pll_freq),
            pll_numerator(xtal_freq, pll_freq, PLL_DENOM as int),
            PLL_DENOM as int,
        ) <= pll_freq,
        10_000 * (pll_freq - rebuilt_pll_freq(
            xtal_freq,
            pll_multiplier(xtal_freq, pll_freq),
            pll_numerator(xtal_freq, pll_freq, PLL_DENOM as int),
            PLL_DENOM as int,
        )) < pll_freq,
{
    lemma_pll_coeffs_accuracy(xtal_freq, pll_freq, PLL_DENOM as int);
}

} // verus!
