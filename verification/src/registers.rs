//! The chip's register map and the bit layouts of its control registers.

use vstd::prelude::*;
use crate::mask::{contains_all, lemma_contains_all};

verus! {

/// First of the thirteen spread-spectrum parameter registers.
pub const SPREAD_SPECTRUM_BASE: u8 = 0x95;

/// Clock-control bit: the output driver is powered down.
pub const CLK_PDN: u8 = 0x80;

/// Clock-control bit: the multisynth feeding this output divides by an integer.
pub const MS_INT: u8 = 0x40;

/// Clock-control bit: the multisynth takes PLL B as its source, not PLL A.
pub const MS_SRC: u8 = 0x20;

/// Clock-control bit: the output is inverted.
pub const CLK_INV: u8 = 0x10;

/// Clock-control field: the output is driven by its own multisynth.
pub const CLK_SRC_MS: u8 = 0x0C;

/// Clock-control field: 8 mA drive strength.
pub const CLK_DRV_8: u8 = 0x03;

/// PLL-reset bit for PLL A.
pub const PLLA_RST: u8 = 0x20;

/// PLL-reset bit for PLL B.
pub const PLLB_RST: u8 = 0x80;

/// Crystal-load register: the bits that are always written.
pub const CL_RESERVED: u8 = 0x12;

/// Crystal-load field: 6 pF.
pub const CL_6: u8 = 0x40;

/// Crystal-load field: 8 pF.
pub const CL_8: u8 = 0x80;

/// Crystal-load field: 10 pF.
pub const CL_10: u8 = 0xC0;

/// Device-status bit: the chip is still loading its configuration.
pub const SYS_INIT: u8 = 0x80;

/// Device-status bit: PLL B has lost lock.
pub const LOL_B: u8 = 0x40;

/// Device-status bit: PLL A has lost lock.
pub const LOL_A: u8 = 0x20;

/// Device-status bit: the reference input has lost signal.
pub const LOS: u8 = 0x10;

/// The four device-status bits that carry a flag.
pub const STATUS_FLAGS: u8 = 0xF0;

/// The registers this driver reads or writes by name.
#[derive(Debug, Clone, Copy, PartialEq, Eq, Structural)]
pub enum Register {
    DeviceStatus,
    OutputEnable,
    Clk0,
    Clk1,
    Clk2,
    Clk3,
    Clk4,
    Clk5,
    Clk6,
    Clk7,
    Clk0PhOff,
    Clk1PhOff,
    Clk2PhOff,
    Clk3PhOff,
    Clk4PhOff,
    Clk5PhOff,
    PLLReset,
    CrystalLoad,
}

impl Register {
    /// The register's byte address on the chip.
    pub open spec fn spec_addr(&self) -> u8 {
        match *self {
            Register::DeviceStatus => 0,
            Register::OutputEnable => 3,
            Register::Clk0 => 16,
            Register::Clk1 => 17,
            Register::Clk2 => 18,
            Register::Clk3 => 19,
            Register::Clk4 => 20,
            Register::Clk5 => 21,
            Register::Clk6 => 22,
            Register::Clk7 => 23,
            Register::Clk0PhOff => 165,
            Register::Clk1PhOff => 166,
            Register::Clk2PhOff => 167,
            Register::Clk3PhOff => 168,
            Register::Clk4PhOff => 169,
            Register::Clk5PhOff => 170,
            Register::PLLReset => 177,
            Register::CrystalLoad => 183,
        }
    }

    /// The register's byte address on the chip.
    #[verifier::when_used_as_spec(spec_addr)]
    pub fn addr(&self) -> (a: u8)
        ensures
            a == self.spec_addr(),
    {
        match *self {
            Register::DeviceStatus => 0,
            Register::OutputEnable => 3,
            Register::Clk0 => 16,
            Register::Clk1 => 17,
            Register::Clk2 => 18,
            Register::Clk3 => 19,
            Register::Clk4 => 20,
            Register::Clk5 => 21,
            Register::Clk6 => 22,
            Register::Clk7 => 23,
            Register::Clk0PhOff => 165,
            Register::Clk1PhOff => 166,
            Register::Clk2PhOff => 167,
            Register::Clk3PhOff => 168,
            Register::Clk4PhOff => 169,
            Register::Clk5PhOff => 170,
            Register::PLLReset => 177,
            Register::CrystalLoad => 183,
        }
    }
}

/// Load capacitance the chip presents to the crystal.
#[derive(Debug, Clone, Copy, PartialEq, Eq, Structural)]
pub enum CrystalLoad {
    _6,
    _8,
    _10,
}

impl CrystalLoad {
    /// The byte written to the crystal-load register for this capacitance.
    pub open spec fn spec_register_value(&self) -> u8 {
        match *self {
            CrystalLoad::_6 => 0x52,
            CrystalLoad::_8 => 0x92,
            CrystalLoad::_10 => 0xD2,
        }
    }

    /// The byte written to the crystal-load register: the reserved bits
    /// together with the two-bit capacitance field.
    #[verifier::when_used_as_spec(spec_register_value)]
    pub fn register_value(&self) -> (v: u8)
        ensures
            v == self.spec_register_value(),
    {
        let field: u8 = match *self {
            CrystalLoad::_6 => CL_6,
            CrystalLoad::_8 => CL_8,
            CrystalLoad::_10 => CL_10,
        };
        assert(0x12u8 | 0x40u8 == 0x52u8 && 0x12u8 | 0x80u8 == 0x92u8 && 0x12u8 | 0xC0u8 == 0xD2u8)
            by (bit_vector);
        CL_RESERVED | field
    }
}

/// Output drive strength.
#[derive(Debug, Clone, Copy, PartialEq, Eq, Structural)]
pub enum Current {
    Output2mA,
    Output4mA,
    Output6mA,
    Output8mA,
}

impl Current {
    /// The two-bit drive-strength code.
    pub open spec fn spec_bits(&self) -> u8 {
        match *self {
            Current::Output2mA => 0,
            Current::Output4mA => 1,
            Current::Output6mA => 2,
            Current::Output8mA => 3,
        }
    }

    /// The two-bit drive-strength code.
    #[verifier::when_used_as_spec(spec_bits)]
    pub fn bits(&self) -> (b: u8)
        ensures
            b == self.spec_bits(),
    {
        match *self {
            Current::Output2mA => 0,
            Current::Output4mA => 1,
            Current::Output6mA => 2,
            Current::Output8mA => 3,
        }
    }
}

/// A snapshot of the device-status register.
#[derive(Debug, Clone, Copy, PartialEq, Eq, Structural)]
pub struct DeviceStatusBits {
    bits: u8,
}

impl DeviceStatusBits {
    /// The raw flags; only the four defined bits can be set.
    pub closed spec fn spec_bits(&self) -> u8 {
        self.bits
    }

    /// Whether every flag of `flags` is set in this snapshot.
    pub open spec fn spec_contains(&self, flags: u8) -> bool {
        contains_all(self.spec_bits(), flags)
    }

    /// Keeps the four defined flags of a status byte, its upper half, and
    /// drops the rest.
    pub fn from_bits_truncate(byte: u8) -> (status: Self)
        ensures
            status.spec_bits() == (byte / 16) * 16,
    {
        assert(byte & 0xF0 == (byte / 16) * 16) by (bit_vector);
        DeviceStatusBits { bits: byte & STATUS_FLAGS }
    }

    /// The raw flags.
    #[verifier::when_used_as_spec(spec_bits)]
    pub fn bits(&self) -> (b: u8)
        ensures
            b == self.spec_bits(),
    {
        self.bits
    }

    /// Whether every flag of `flags` is set in this snapshot.
    #[verifier::when_used_as_spec(spec_contains)]
    pub fn contains(&self, flags: u8) -> (yes: bool)
        ensures
            yes == self.spec_contains(flags),
    {
        proof {
            lemma_contains_all(self.bits, flags);
        }
        self.bits & flags == flags
    }
}

} // verus!
