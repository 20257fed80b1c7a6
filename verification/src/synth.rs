//! The chip's synthesizer units: where each one's registers start and which
//! bit of the per-unit masks belongs to it.

use vstd::prelude::*;
use vstd::std_specs::bits::{axiom_u16_leading_zeros, u16_leading_zeros};
use crate::error::Error;
use crate::registers::Register;

verus! {

/// One of the two phase-locked loops.
#[derive(Debug, Clone, Copy, PartialEq, Eq, Structural)]
pub enum PLL {
    A,
    B,
}

/// The feedback divider that closes a PLL's loop.
#[derive(Debug, Clone, Copy, PartialEq, Eq, Structural)]
pub enum FeedbackMultisynth {
    MSNA,
    MSNB,
}

/// One of the six fractional output dividers.
#[derive(Debug, Clone, Copy, PartialEq, Eq, Structural)]
pub enum Multisynth {
    MS0,
    MS1,
    MS2,
    MS3,
    MS4,
    MS5,
}

/// One of the two integer-only output dividers.
#[derive(Debug, Clone, Copy, PartialEq, Eq, Structural)]
pub enum SimpleMultisynth {
    MS6,
    MS7,
}

/// One of the eight output pins.
#[derive(Debug, Clone, Copy, PartialEq, Eq, Structural)]
pub enum ClockOutput {
    Clk0,
    Clk1,
    Clk2,
    Clk3,
    Clk4,
    Clk5,
    Clk6,
    Clk7,
}

/// The power-of-two divider that follows a multisynth.
#[derive(Debug, Clone, Copy, PartialEq, Eq, Structural)]
pub enum OutputDivider {
    Div1,
    Div2,
    Div4,
    Div8,
    Div16,
    Div32,
    Div64,
    Div128,
}

impl PLL {
    /// The feedback multisynth that belongs to this PLL.
    pub open spec fn spec_multisynth(&self) -> FeedbackMultisynth {
        match *self {
            PLL::A => FeedbackMultisynth::MSNA,
            PLL::B => FeedbackMultisynth::MSNB,
        }
    }

    /// The feedback multisynth that belongs to this PLL.
    #[verifier::when_used_as_spec(spec_multisynth)]
    pub fn multisynth(&self) -> (ms: FeedbackMultisynth)
        ensures
            ms == self.spec_multisynth(),
    {
        match *self {
            PLL::A => FeedbackMultisynth::MSNA,
            PLL::B => FeedbackMultisynth::MSNB,
        }
    }
}

/// A divider with a fractional part: eight parameter registers starting at a
/// base address, and one bit in the integer-mode mask.
pub trait FractionalMultisynth {
    /// Address of the first of the unit's eight parameter registers.
    spec fn spec_base_addr(&self) -> u8;

    /// Position of the unit's bit in the integer-mode mask.
    spec fn spec_ix(&self) -> u8;

    /// Address of the first of the unit's eight parameter registers.
    fn base_addr(&self) -> (a: u8)
        ensures
            a == self.spec_base_addr(),
    ;

    /// Position of the unit's bit in the integer-mode mask, below 8.
    fn ix(&self) -> (i: u8)
        ensures
            i == self.spec_ix(),
            i < 8,
    ;
}

impl FractionalMultisynth for FeedbackMultisynth {
    open spec fn spec_base_addr(&self) -> u8 {
        match *self {
            FeedbackMultisynth::MSNA => 26,
            FeedbackMultisynth::MSNB => 34,
        }
    }

    open spec fn spec_ix(&self) -> u8 {
        match *self {
            FeedbackMultisynth::MSNA => 6,
            FeedbackMultisynth::MSNB => 7,
        }
    }

    /// The two feedback units follow each other, eight registers apart,
    /// from address 26 on.
    fn base_addr(&self) -> (a: u8)
        ensures
            a == 26 + 8 * (self.spec_ix() - 6),
    {
        match *self {
            FeedbackMultisynth::MSNA => 26,
            FeedbackMultisynth::MSNB => 34,
        }
    }

    fn ix(&self) -> (i: u8) {
        match *self {
            FeedbackMultisynth::MSNA => 6,
            FeedbackMultisynth::MSNB => 7,
        }
    }
}

impl FractionalMultisynth for Multisynth {
    open spec fn spec_base_addr(&self) -> u8 {
        match *self {
            Multisynth::MS0 => 42,
            Multisynth::MS1 => 50,
            Multisynth::MS2 => 58,
            Multisynth::MS3 => 66,
            Multisynth::MS4 => 74,
            Multisynth::MS5 => 82,
        }
    }

    open spec fn spec_ix(&self) -> u8 {
        match *self {
            Multisynth::MS0 => 0,
            Multisynth::MS1 => 1,
            Multisynth::MS2 => 2,
            Multisynth::MS3 => 3,
            Multisynth::MS4 => 4,
            Multisynth::MS5 => 5,
        }
    }

    /// The six output units follow each other, eight registers apart, from
    /// address 42 on.
    fn base_addr(&self) -> (a: u8)
        ensures
            a == 42 + 8 * self.spec_ix(),
    {
        match *self {
            Multisynth::MS0 => 42,
            Multisynth::MS1 => 50,
            Multisynth::MS2 => 58,
            Multisynth::MS3 => 66,
            Multisynth::MS4 => 74,
            Multisynth::MS5 => 82,
        }
    }

    fn ix(&self) -> (i: u8) {
        match *self {
            Multisynth::MS0 => 0,
            Multisynth::MS1 => 1,
            Multisynth::MS2 => 2,
            Multisynth::MS3 => 3,
            Multisynth::MS4 => 4,
            Multisynth::MS5 => 5,
        }
    }
}

impl SimpleMultisynth {
    /// Address of the unit's single parameter register.
    pub open spec fn spec_base_addr(&self) -> u8 {
        match *self {
            SimpleMultisynth::MS6 => 90,
            SimpleMultisynth::MS7 => 91,
        }
    }

    /// Address of the unit's single parameter register.
    #[verifier::when_used_as_spec(spec_base_addr)]
    pub fn base_addr(&self) -> (a: u8)
        ensures
            a == self.spec_base_addr(),
    {
        match *self {
            SimpleMultisynth::MS6 => 90,
            SimpleMultisynth::MS7 => 91,
        }
    }
}

impl ClockOutput {
    /// Position of the output's bit in the per-output masks.
    pub open spec fn spec_ix(&self) -> u8 {
        match *self {
            ClockOutput::Clk0 => 0,
            ClockOutput::Clk1 => 1,
            ClockOutput::Clk2 => 2,
            ClockOutput::Clk3 => 3,
            ClockOutput::Clk4 => 4,
            ClockOutput::Clk5 => 5,
            ClockOutput::Clk6 => 6,
            ClockOutput::Clk7 => 7,
        }
    }

    /// The output's clock-control register.
    pub open spec fn spec_register(self) -> Register {
        match self {
            ClockOutput::Clk0 => Register::Clk0,
            ClockOutput::Clk1 => Register::Clk1,
            ClockOutput::Clk2 => Register::Clk2,
            ClockOutput::Clk3 => Register::Clk3,
            ClockOutput::Clk4 => Register::Clk4,
            ClockOutput::Clk5 => Register::Clk5,
            ClockOutput::Clk6 => Register::Clk6,
            ClockOutput::Clk7 => Register::Clk7,
        }
    }

    /// The multisynth wired to this output; the last two outputs are fed by
    /// the integer-only dividers and have none.
    pub open spec fn spec_multisynth(self) -> Option<Multisynth> {
        match self {
            ClockOutput::Clk0 => Some(Multisynth::MS0),
            ClockOutput::Clk1 => Some(Multisynth::MS1),
            ClockOutput::Clk2 => Some(Multisynth::MS2),
            ClockOutput::Clk3 => Some(Multisynth::MS3),
            ClockOutput::Clk4 => Some(Multisynth::MS4),
            ClockOutput::Clk5 => Some(Multisynth::MS5),
            _ => None,
        }
    }

    /// The output's phase-offset register; the last two outputs have none.
    pub open spec fn spec_phase_offset_register(self) -> Option<Register> {
        match self {
            ClockOutput::Clk0 => Some(Register::Clk0PhOff),
            ClockOutput::Clk1 => Some(Register::Clk1PhOff),
            ClockOutput::Clk2 => Some(Register::Clk2PhOff),
            ClockOutput::Clk3 => Some(Register::Clk3PhOff),
            ClockOutput::Clk4 => Some(Register::Clk4PhOff),
            ClockOutput::Clk5 => Some(Register::Clk5PhOff),
            _ => None,
        }
    }

    /// The output's clock-control register, which sits at address 16 plus
    /// the output's index.
    #[verifier::when_used_as_spec(spec_register)]
    pub fn register(self) -> (reg: Register)
        ensures
            reg == self.spec_register(),
            reg.addr() == 16 + self.ix(),
    {
        match self {
            ClockOutput::Clk0 => Register::Clk0,
            ClockOutput::Clk1 => Register::Clk1,
            ClockOutput::Clk2 => Register::Clk2,
            ClockOutput::Clk3 => Register::Clk3,
            ClockOutput::Clk4 => Register::Clk4,
            ClockOutput::Clk5 => Register::Clk5,
            ClockOutput::Clk6 => Register::Clk6,
            ClockOutput::Clk7 => Register::Clk7,
        }
    }

    /// Position of the output's bit in the per-output masks, below 8.
    #[verifier::when_used_as_spec(spec_ix)]
    pub fn ix(&self) -> (i: u8)
        ensures
            i == self.spec_ix(),
            i < 8,
    {
        match *self {
            ClockOutput::Clk0 => 0,
            ClockOutput::Clk1 => 1,
            ClockOutput::Clk2 => 2,
            ClockOutput::Clk3 => 3,
            ClockOutput::Clk4 => 4,
            ClockOutput::Clk5 => 5,
            ClockOutput::Clk6 => 6,
            ClockOutput::Clk7 => 7,
        }
    }

    /// The multisynth wired to this output, which shares the output's index.
    #[verifier::when_used_as_spec(spec_multisynth)]
    pub fn multisynth(self) -> (ms: Option<Multisynth>)
        ensures
            ms == self.spec_multisynth(),
            ms is Some <==> self.ix() < 6,
            ms matches Some(unit) ==> unit.spec_ix() == self.ix(),
    {
        match self {
            ClockOutput::Clk0 => Some(Multisynth::MS0),
            ClockOutput::Clk1 => Some(Multisynth::MS1),
            ClockOutput::Clk2 => Some(Multisynth::MS2),
            ClockOutput::Clk3 => Some(Multisynth::MS3),
            ClockOutput::Clk4 => Some(Multisynth::MS4),
            ClockOutput::Clk5 => Some(Multisynth::MS5),
            _ => None,
        }
    }

    /// The output's phase-offset register, which sits at address 165 plus
    /// the output's index.
    #[verifier::when_used_as_spec(spec_phase_offset_register)]
    pub fn phase_offset_register(self) -> (reg: Option<Register>)
        ensures
            reg == self.spec_phase_offset_register(),
            reg is Some <==> self.ix() < 6,
            reg matches Some(r) ==> r.addr() == 165 + self.ix(),
    {
        match self {
            ClockOutput::Clk0 => Some(Register::Clk0PhOff),
            ClockOutput::Clk1 => Some(Register::Clk1PhOff),
            ClockOutput::Clk2 => Some(Register::Clk2PhOff),
            ClockOutput::Clk3 => Some(Register::Clk3PhOff),
            ClockOutput::Clk4 => Some(Register::Clk4PhOff),
            ClockOutput::Clk5 => Some(Register::Clk5PhOff),
            _ => None,
        }
    }
}

/// What the leading-zero count of a 16-bit value says about its size: with
/// `zeros` leading zeros the value has `16 - zeros` significant bits.
proof fn lemma_significant_bits(x: u16, zeros: u16)
    by (bit_vector)
    requires
        zeros <= 16,
        zeros < 16 ==> (x >> ((15 - zeros) as u16)) & 1u16 != 0u16,
        x >> ((16 - zeros) as u16) == 0u16,
    ensures
        zeros == 16 ==> x == 0,
        zeros == 15 ==> x == 1,
        zeros == 14 ==> 2 <= x < 4,
        zeros == 13 ==> 4 <= x < 8,
        zeros == 12 ==> 8 <= x < 16,
        zeros == 11 ==> 16 <= x < 32,
        zeros == 10 ==> 32 <= x < 64,
        zeros == 9 ==> 64 <= x < 128,
        zeros <= 8 ==> x >= 128,
{
}

impl OutputDivider {
    /// The three-bit code that selects this divider.
    pub open spec fn spec_bits(&self) -> u8 {
        match *self {
            OutputDivider::Div1 => 0,
            OutputDivider::Div2 => 1,
            OutputDivider::Div4 => 2,
            OutputDivider::Div8 => 3,
            OutputDivider::Div16 => 4,
            OutputDivider::Div32 => 5,
            OutputDivider::Div64 => 6,
            OutputDivider::Div128 => 7,
        }
    }

    /// The number this divider divides by.
    pub open spec fn spec_denominator_u8(&self) -> u8 {
        match *self {
            OutputDivider::Div1 => 1,
            OutputDivider::Div2 => 2,
            OutputDivider::Div4 => 4,
            OutputDivider::Div8 => 8,
            OutputDivider::Div16 => 16,
            OutputDivider::Div32 => 32,
            OutputDivider::Div64 => 64,
            OutputDivider::Div128 => 128,
        }
    }

    /// The three-bit code that selects this divider.
    #[verifier::when_used_as_spec(spec_bits)]
    pub fn bits(&self) -> (code: u8)
        ensures
            code == self.spec_bits(),
            code < 8,
    {
        match *self {
            OutputDivider::Div1 => 0,
            OutputDivider::Div2 => 1,
            OutputDivider::Div4 => 2,
            OutputDivider::Div8 => 3,
            OutputDivider::Div16 => 4,
            OutputDivider::Div32 => 5,
            OutputDivider::Div64 => 6,
            OutputDivider::Div128 => 7,
        }
    }

    /// `x` divided by this divider, rounded down.
    pub open spec fn quotient(&self, x: int) -> int {
        match *self {
            OutputDivider::Div1 => x,
            OutputDivider::Div2 => x / 2,
            OutputDivider::Div4 => x / 4,
            OutputDivider::Div8 => x / 8,
            OutputDivider::Div16 => x / 16,
            OutputDivider::Div32 => x / 32,
            OutputDivider::Div64 => x / 64,
            OutputDivider::Div128 => x / 128,
        }
    }

    /// `x` times the number this divider divides by.
    pub open spec fn product(&self, x: int) -> int {
        match *self {
            OutputDivider::Div1 => x,
            OutputDivider::Div2 => 2 * x,
            OutputDivider::Div4 => 4 * x,
            OutputDivider::Div8 => 8 * x,
            OutputDivider::Div16 => 16 * x,
            OutputDivider::Div32 => 32 * x,
            OutputDivider::Div64 => 64 * x,
            OutputDivider::Div128 => 128 * x,
        }
    }

    /// The smallest divider that divides by at least `desired`; the largest
    /// one where none does.
    pub open spec fn spec_min_divider(desired: int) -> OutputDivider {
        if desired <= 1 {
            OutputDivider::Div1
        } else if desired <= 2 {
            OutputDivider::Div2
        } else if desired <= 4 {
            OutputDivider::Div4
        } else if desired <= 8 {
            OutputDivider::Div8
        } else if desired <= 16 {
            OutputDivider::Div16
        } else if desired <= 32 {
            OutputDivider::Div32
        } else if desired <= 64 {
            OutputDivider::Div64
        } else {
            OutputDivider::Div128
        }
    }

    /// Whether this divider divides by at least `desired` and no smaller
    /// divider does.
    pub open spec fn is_min_divider(&self, desired: int) -> bool {
        &&& self.denominator_u8() >= desired
        &&& forall|other: OutputDivider|
            other.denominator_u8() >= desired ==> self.denominator_u8()
                <= #[trigger] other.denominator_u8()
    }

    /// The smallest divider that divides by at least `desired_divider`.
    ///
    /// Fails with [`Error::InvalidParameter`] exactly when even the largest
    /// divider, 128, is too small.
    pub fn min_divider(desired_divider: u16) -> (r: Result<OutputDivider, Error>)
        ensures
            r is Ok <==> desired_divider <= 128,
            r is Err ==> r == Err::<OutputDivider, Error>(Error::InvalidParameter),
            r matches Ok(d) ==> {
                &&& d == Self::spec_min_divider(desired_divider as int)
                &&& d.is_min_divider(desired_divider as int)
            },
    {
        let below: u16 = desired_divider.max(1) - 1;
        let zeros: u32 = below.leading_zeros();
        proof {
            axiom_u16_leading_zeros(below);
            lemma_significant_bits(below, u16_leading_zeros(below) as u16);
        }
        match 16 - zeros {
            0 => Ok(OutputDivider::Div1),
            1 => Ok(OutputDivider::Div2),
            2 => Ok(OutputDivider::Div4),
            3 => Ok(OutputDivider::Div8),
            4 => Ok(OutputDivider::Div16),
            5 => Ok(OutputDivider::Div32),
            6 => Ok(OutputDivider::Div64),
            7 => Ok(OutputDivider::Div128),
            _ => Err(Error::InvalidParameter),
        }
    }

    /// [`quotient`](Self::quotient) and [`product`](Self::product) divide
    /// and multiply by the divider's denominator, which is two to the power
    /// of its code.
    pub proof fn lemma_denominator(self, x: int)
        ensures
            self.quotient(x) == x / (self.denominator_u8() as int),
            self.quotient(x) / 2 == x / (2 * self.denominator_u8()),
            self.product(x) == x * self.denominator_u8(),
            self.denominator_u8() as int == vstd::arithmetic::power2::pow2(self.bits() as nat),
    {
        vstd::arithmetic::power2::lemma2_to64();
        let d = self.denominator_u8() as int;
        let q = self.quotient(x);
        assert(q / 2 == x / (2 * d)) by (nonlinear_arith)
            requires
                q == x / d,
                d == 1 || d == 2 || d == 4 || d == 8 || d == 16 || d == 32 || d == 64 || d == 128,
        ;
    }

    /// The number this divider divides by.
    #[verifier::when_used_as_spec(spec_denominator_u8)]
    pub fn denominator_u8(&self) -> (d: u8)
        ensures
            d == self.spec_denominator_u8(),
    {
        match *self {
            OutputDivider::Div1 => 1,
            OutputDivider::Div2 => 2,
            OutputDivider::Div4 => 4,
            OutputDivider::Div8 => 8,
            OutputDivider::Div16 => 16,
            OutputDivider::Div32 => 32,
            OutputDivider::Div64 => 64,
            OutputDivider::Div128 => 128,
        }
    }
}

} // verus!
