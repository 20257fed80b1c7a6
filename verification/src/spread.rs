//! Center-spread spectrum parameters and their packing into the chip's
//! thirteen spread-spectrum registers.
//!
//! The modulation is described by an update period and, for each direction,
//! a step split into an integer part `p1`, a fractional part `p2` and a
//! denominator `p3` that is fixed at `0x7FFF`.

use vstd::prelude::*;

verus! {

/// Four times the modulation rate of 31.5 kHz, in Hz. The update period is
/// the phase-detector frequency divided by it.
pub const UPDATE_PERIOD_UNIT: u32 = 126_000;

/// Largest update period and largest `p1`: eleven bits.
pub const ELEVEN_BITS: u16 = 0x7FF;

/// Largest `p2`: fourteen bits.
pub const FOURTEEN_BITS: u16 = 0x3FFF;

/// The denominator `p3` of both steps.
pub const SPREAD_P3: u16 = 0x7FFF;

/// Bit in the first register's upper byte that switches spread spectrum on.
pub const SSC_EN: u16 = 0x80;

/// Bit in the third register's upper byte that selects center spread over
/// down spread.
pub const SSC_MODE: u16 = 0x80;

/// The number of clocks per spread-spectrum cycle, which stays at zero.
pub const SS_NCLK: u16 = 0x0;

/// The spread-spectrum parameters as numbers.
pub struct SpreadFields {
    /// Update period: phase-detector cycles in a quarter of a modulation
    /// cycle.
    pub ssudp: int,
    /// Integer part of the upward step.
    pub ssup_p1: int,
    /// Fractional part of the upward step, in 32767ths.
    pub ssup_p2: int,
    /// Integer part of the downward step.
    pub ssdn_p1: int,
    /// Fractional part of the downward step, in 32767ths.
    pub ssdn_p2: int,
}

/// The update period for a phase-detector frequency of `f_pfd` Hz: how
/// often 126 kHz fits into it, kept to eleven bits.
pub open spec fn spec_ssudp(f_pfd: int) -> int {
    (f_pfd / 126_000) % 0x800
}

/// The thirteen register bytes for a set of parameters.
pub open spec fn spread_payload(f: SpreadFields) -> Seq<u8> {
    seq![
        (0x80 + f.ssdn_p2 / 0x100) as u8,
        (f.ssdn_p2 % 0x100) as u8,
        0xFFu8,
        0xFFu8,
        (f.ssdn_p1 % 0x100) as u8,
        (16 * (f.ssudp / 0x100) + f.ssdn_p1 / 0x100) as u8,
        (f.ssudp % 0x100) as u8,
        (f.ssup_p2 / 0x100) as u8,
        (f.ssup_p2 % 0x100) as u8,
        0x7Fu8,
        0xFFu8,
        (f.ssup_p1 % 0x100) as u8,
        (f.ssup_p1 / 0x100) as u8,
    ]
}

/// A mask with the low bits set keeps the remainder.
proof fn lemma_keep_low_bits(x: u16)
    by (bit_vector)
    ensures
        x & 0x7FF == x % 0x800,
        x & 0x3FFF == x % 0x4000,
{
}

/// How the register bytes come out of fields that fit their widths.
proof fn lemma_spread_bytes(p1: u16, p2: u16, ssudp: u16)
    by (bit_vector)
    requires
        p1 <= 0x7FF,
        p2 <= 0x3FFF,
        ssudp <= 0x7FF,
    ensures
        (0x80u16 | (p2 >> 8)) == 0x80 + p2 / 0x100,
        p2 >> 8 == p2 / 0x100,
        p2 & 0xff == p2 % 0x100,
        p1 & 0xff == p1 % 0x100,
        ssudp & 0xff == ssudp % 0x100,
        ((ssudp >> 4) & 0xf0) | ((p1 >> 8) & 0x0f) == 16 * (ssudp / 0x100) + p1 / 0x100,
        0u16 | ((p1 >> 8) & 0x0f) == p1 / 0x100,
        0x80u16 | (0x7FFFu16 >> 8) == 0xFF,
        0x7FFFu16 >> 8 == 0x7F,
        0x7FFFu16 & 0xff == 0xFF,
{
}

/// Spread-spectrum parameters, each within its register width.
#[derive(Debug, Clone, Copy, PartialEq, Eq)]
pub struct SpreadCoefficients {
    ssudp: u16,
    ssup_p1: u16,
    ssup_p2: u16,
    ssdn_p1: u16,
    ssdn_p2: u16,
}

impl View for SpreadCoefficients {
    type V = SpreadFields;

    closed spec fn view(&self) -> SpreadFields {
        SpreadFields {
            ssudp: self.ssudp as int,
            ssup_p1: self.ssup_p1 as int,
            ssup_p2: self.ssup_p2 as int,
            ssdn_p1: self.ssdn_p1 as int,
            ssdn_p2: self.ssdn_p2 as int,
        }
    }
}

impl SpreadCoefficients {
    /// Every field fits its register width.
    #[verifier::type_invariant]
    closed spec fn fits(self) -> bool {
        &&& self.ssudp <= 0x7FF
        &&& self.ssup_p1 <= 0x7FF
        &&& self.ssup_p2 <= 0x3FFF
        &&& self.ssdn_p1 <= 0x7FF
        &&& self.ssdn_p2 <= 0x3FFF
    }

    /// Whether a set of numbers fits the register widths: eleven bits for
    /// the update period and each `p1`, fourteen for each `p2`.
    pub open spec fn in_range(f: SpreadFields) -> bool {
        &&& 0 <= f.ssudp <= 0x7FF
        &&& 0 <= f.ssup_p1 <= 0x7FF
        &&& 0 <= f.ssup_p2 <= 0x3FFF
        &&& 0 <= f.ssdn_p1 <= 0x7FF
        &&& 0 <= f.ssdn_p2 <= 0x3FFF
    }

    /// Parameters from raw values, each cut down to its register width.
    pub fn new(ssudp: u16, ssup_p1: u16, ssup_p2: u16, ssdn_p1: u16, ssdn_p2: u16) -> (c: Self)
        ensures
            c@ == (SpreadFields {
                ssudp: ssudp as int % 0x800,
                ssup_p1: ssup_p1 as int % 0x800,
                ssup_p2: ssup_p2 as int % 0x4000,
                ssdn_p1: ssdn_p1 as int % 0x800,
                ssdn_p2: ssdn_p2 as int % 0x4000,
            }),
            Self::in_range(c@),
    {
        proof {
            lemma_keep_low_bits(ssudp);
            lemma_keep_low_bits(ssup_p1);
            lemma_keep_low_bits(ssup_p2);
            lemma_keep_low_bits(ssdn_p1);
            lemma_keep_low_bits(ssdn_p2);
        }
        SpreadCoefficients {
            ssudp: ssudp & ELEVEN_BITS,
            ssup_p1: ssup_p1 & ELEVEN_BITS,
            ssup_p2: ssup_p2 & FOURTEEN_BITS,
            ssdn_p1: ssdn_p1 & ELEVEN_BITS,
            ssdn_p2: ssdn_p2 & FOURTEEN_BITS,
        }
    }

    /// The update period for a phase-detector frequency of `f_pfd` Hz.
    pub fn calc_ssudp(f_pfd: u32) -> (ssudp: u16)
        ensures
            ssudp == spec_ssudp(f_pfd as int),
            ssudp <= 0x7FF,
    {
        let units: u16 = (f_pfd / UPDATE_PERIOD_UNIT) as u16;
        proof {
            lemma_keep_low_bits(units);
        }
        units & ELEVEN_BITS
    }

    /// Update period.
    pub fn ssudp(&self) -> (v: u16)
        ensures
            v == self@.ssudp,
            Self::in_range(self@),
    {
        proof {
            use_type_invariant(self);
        }
        self.ssudp
    }

    /// The upward step as `p1`, `p2` and `p3`.
    pub fn ssup(&self) -> (v: (u16, u16, u16))
        ensures
            v.0 == self@.ssup_p1,
            v.1 == self@.ssup_p2,
            v.2 == 0x7FFF,
            Self::in_range(self@),
    {
        proof {
            use_type_invariant(self);
        }
        (self.ssup_p1, self.ssup_p2, SPREAD_P3)
    }

    /// The downward step as `p1`, `p2` and `p3`.
    pub fn ssdn(&self) -> (v: (u16, u16, u16))
        ensures
            v.0 == self@.ssdn_p1,
            v.1 == self@.ssdn_p2,
            v.2 == 0x7FFF,
            Self::in_range(self@),
    {
        proof {
            use_type_invariant(self);
        }
        (self.ssdn_p1, self.ssdn_p2, SPREAD_P3)
    }

    /// The thirteen register bytes: spread spectrum switched on, center
    /// spread selected, and the parameters in the chip's layout.
    pub fn register_bytes(&self) -> (bytes: [u8; 13])
        ensures
            bytes@ == spread_payload(self@),
    {
        proof {
            use_type_invariant(self);
            lemma_spread_bytes(self.ssdn_p1, self.ssdn_p2, self.ssudp);
            lemma_spread_bytes(self.ssup_p1, self.ssup_p2, self.ssudp);
        }
        let ssudp: u16 = self.ssudp;
        let (ssup_p1, ssup_p2, ssup_p3) = self.ssup();
        let (ssdn_p1, ssdn_p2, ssdn_p3) = self.ssdn();
        let bytes: [u8; 13] = [
            (SSC_EN | (ssdn_p2 >> 8)) as u8,
            (ssdn_p2 & 0xff) as u8,
            (SSC_MODE | (ssdn_p3 >> 8)) as u8,
            (ssdn_p3 & 0xff) as u8,
            (ssdn_p1 & 0xff) as u8,
            (((ssudp >> 4) & 0xf0) | ((ssdn_p1 >> 8) & 0x0f)) as u8,
            (ssudp & 0xff) as u8,
            (ssup_p2 >> 8) as u8,
            (ssup_p2 & 0xff) as u8,
            (ssup_p3 >> 8) as u8,
            (ssup_p3 & 0xff) as u8,
            (ssup_p1 & 0xff) as u8,
            (SS_NCLK | ((ssup_p1 >> 8) & 0x0f)) as u8,
        ];
        assert(bytes@ =~= spread_payload(self@));
        bytes
    }
}

/// For every crystal between 20 MHz and 30 MHz the update period needs no
/// more than eleven bits: cutting it to that width loses nothing.
pub proof fn lemma_ssudp_fits_eleven_bits(f_pfd: int)
    requires
        20_000_000 <= f_pfd <= 30_000_000,
    ensures
        spec_ssudp(f_pfd) == f_pfd / 126_000,
        158 <= spec_ssudp(f_pfd) <= 238,
{
}

} // verus!
