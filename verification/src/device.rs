//! The driver's state and the operations that turn requests into register
//! writes.
//!
//! The chip's clock-control registers pack several independent decisions
//! into one byte and are not read back, so the driver remembers what it last
//! intended for each of them in three masks and recomposes the byte whenever
//! one decision changes.

use vstd::prelude::*;
use crate::bus::{
    block_frame, frames, queue, register_frame, BusRead, BusWrite, Frame, WritePlan,
};
use crate::encoder::{encode, ratio_payload, valid_fraction};
use crate::error::Error;
use crate::mask::{
    bit, complement, lemma_bit_operations, lemma_complement, lemma_with_bit,
    lemma_with_bit_idempotent, with_bit,
};
use crate::registers::{
    CrystalLoad, Current, DeviceStatusBits, Register, CLK_DRV_8, CLK_PDN, CLK_SRC_MS, MS_INT,
    MS_SRC, PLLA_RST, PLLB_RST, SPREAD_SPECTRUM_BASE, SYS_INIT,
};
use crate::search::{
    lemma_dividers_in_range, ms_divider, output_divider, pll_multiplier, pll_numerator, synthesis,
    total_divider, Synthesis, MAX_PLL_FREQ, MS_DIVIDER_MAX, MS_DIVIDER_MIN, MS_DIVIDER_TARGET,
    PLL_DENOM, PLL_MULT_MAX, PLL_MULT_MIN,
};
use crate::spread::{spread_payload, SpreadCoefficients, SpreadFields};
use crate::synth::{ClockOutput, FractionalMultisynth, Multisynth, OutputDivider, PLL};

verus! {

/// Seven-bit bus address of the chip with its address pin low.
pub const ADDRESS: u8 = 0x60;

/// Crystal frequency of the Adafruit breakout board, in Hz.
pub const ADAFRUIT_XTAL_FREQ: u32 = 25_000_000;

/// What the driver knows: where the chip is, what crystal drives it, and
/// what it last intended for each output.
pub struct DeviceState {
    /// Seven-bit bus address of the chip.
    pub address: u8,
    /// Crystal frequency in Hz.
    pub xtal_freq: u32,
    /// Bit `i` set: output `i` is meant to run.
    pub enabled: u8,
    /// Bit `i` set: the unit with index `i` divides by an integer.
    pub integer_mode: u8,
    /// Bit `i` set: output `i` is fed from PLL B, otherwise from PLL A.
    pub pll_source: u8,
}

/// Driver state for one Si5351.
#[derive(Debug, Clone, Copy, PartialEq, Eq)]
pub struct Si5351Device {
    address: u8,
    xtal_freq: u32,
    clk_enabled_mask: u8,
    ms_int_mode_mask: u8,
    ms_src_mask: u8,
}

impl View for Si5351Device {
    type V = DeviceState;

    closed spec fn view(&self) -> DeviceState {
        DeviceState {
            address: self.address,
            xtal_freq: self.xtal_freq,
            enabled: self.clk_enabled_mask,
            integer_mode: self.ms_int_mode_mask,
            pll_source: self.ms_src_mask,
        }
    }
}

/// The clock-control byte for the output with index `ix`: multisynth as
/// source and 8 mA drive, with the power-down bit unless the output is
/// enabled, the integer-mode bit if its unit divides by an integer, and the
/// source bit if it is fed from PLL B.
pub open spec fn clock_control_byte(state: DeviceState, ix: u8) -> u8 {
    (0x0F + (if bit(state.enabled, ix) {
        0int
    } else {
        0x80int
    }) + (if bit(state.integer_mode, ix) {
        0x40int
    } else {
        0int
    }) + (if bit(state.pll_source, ix) {
        0x20int
    } else {
        0int
    })) as u8
}

/// The three flag bits and the fixed low nibble do not overlap, so they
/// combine by addition.
proof fn lemma_control_bits(pdn: u8, int_mode: u8, src: u8)
    by (bit_vector)
    requires
        pdn == 0 || pdn == 0x80,
        int_mode == 0 || int_mode == 0x40,
        src == 0 || src == 0x20,
    ensures
        pdn | int_mode | src | (0x0Cu8 | 0x03u8) == 0x0F + pdn + int_mode + src,
{
}

/// The lowest bit is the remainder by two.
proof fn lemma_odd(x: u8)
    by (bit_vector)
    ensures
        (x & 1u8 == 1u8) <==> x % 2 == 1,
{
}

/// The low sixteen bits are what narrowing to 16 bits keeps.
proof fn lemma_narrowing_u16(x: u32)
    by (bit_vector)
    ensures
        (x as u16) as u32 == x % 0x1_0000,
{
}

/// The low eight bits are what narrowing to 8 bits keeps.
proof fn lemma_narrowing_u8(x: u64)
    by (bit_vector)
    ensures
        (x as u8) as u64 == x % 0x100,
{
}

/// The writes that configure the chip once it has left its start-up phase:
/// the output-enable mask, a power-down for each of the eight outputs, and
/// the crystal load.
pub open spec fn init_frames(state: DeviceState, xtal_load: CrystalLoad) -> Seq<Frame> {
    seq![register_frame(state.address, 3, complement(state.enabled))] + Seq::new(
        8,
        |i: int| register_frame(state.address, (16 + i) as u8, 0x80),
    ) + seq![register_frame(state.address, 183, xtal_load.register_value())]
}

/// The frame that stores a set of spread-spectrum parameters.
pub open spec fn spread_frame(address: u8, fields: SpreadFields) -> Frame {
    block_frame(address, 0x95, spread_payload(fields))
}

/// The state once output `clk` has been routed to `pll` and switched on:
/// the PLL's feedback unit noted as integer or fractional, the output's
/// multisynth as integer, the output's source and enable bits set.
pub open spec fn routed(state: DeviceState, pll: PLL, clk: ClockOutput, pll_is_integer: bool)
    -> DeviceState {
    DeviceState {
        enabled: with_bit(state.enabled, clk.ix(), true),
        integer_mode: with_bit(
            with_bit(state.integer_mode, pll.multisynth().spec_ix(), pll_is_integer),
            clk.ix(),
            true,
        ),
        pll_source: with_bit(state.pll_source, clk.ix(), pll == PLL::B),
        ..state
    }
}

/// The writes that bring output `clk` to the frequency described by `s`,
/// in the order in which they must reach the chip: the PLL's coefficients,
/// the output multisynth's, the output's clock-control byte, the PLL
/// reset, and the output-enable mask.
pub open spec fn frequency_frames(state: DeviceState, pll: PLL, clk: ClockOutput, s: Synthesis)
    -> Seq<Frame> {
    let after = routed(state, pll, clk, s.num == 0);
    seq![
        block_frame(
            state.address,
            pll.multisynth().spec_base_addr(),
            ratio_payload(s.mult, s.num, PLL_DENOM as int, OutputDivider::Div1),
        ),
        block_frame(
            state.address,
            (42 + 8 * clk.ix()) as u8,
            ratio_payload(s.ms_divider, 0, 1, s.r_div),
        ),
        register_frame(state.address, (16 + clk.ix()) as u8, clock_control_byte(after, clk.ix())),
        register_frame(
            state.address,
            177,
            match pll {
                PLL::A => 0x20u8,
                PLL::B => 0x80u8,
            },
        ),
        register_frame(state.address, 3, complement(after.enabled)),
    ]
}

/// Whether output `clk` can be brought to `freq` Hz from a crystal of
/// `xtal_freq` Hz: the output must have a multisynth of its own, and the
/// PLL multiplier that the search arrives at must lie in `15..=90`.
pub open spec fn frequency_outcome(
    xtal_freq: int,
    clk: ClockOutput,
    freq: int,
) -> Result<(), Error> {
    let s = synthesis(xtal_freq, freq);
    if clk.ix() < 6 && 15 <= s.mult <= 90 {
        Ok(())
    } else {
        Err(Error::InvalidParameter)
    }
}

/// The writes that a request to bring output `clk` to `freq` Hz from `pll`
/// comes to, in order.
///
/// An output without a multisynth is refused before anything is written.
/// Spread-spectrum parameters, where given, are written first, before the
/// PLL multiplier is looked at. The five writes of [`frequency_frames`]
/// follow where the request succeeds.
pub open spec fn frequency_writes(
    state: DeviceState,
    pll: PLL,
    clk: ClockOutput,
    freq: int,
    spread: Option<SpreadFields>,
) -> Seq<Frame> {
    let first = match spread {
        Some(fields) => seq![spread_frame(state.address, fields)],
        None => Seq::<Frame>::empty(),
    };
    if clk.ix() >= 6 {
        Seq::empty()
    } else if frequency_outcome(state.xtal_freq as int, clk, freq) is Err {
        first
    } else {
        first + frequency_frames(state, pll, clk, synthesis(state.xtal_freq as int, freq))
    }
}

/// The driver's state after a request to bring output `clk` to `freq` Hz
/// from `pll`: that of [`routed`] where the request succeeds, unchanged
/// where it is refused.
pub open spec fn frequency_state(state: DeviceState, pll: PLL, clk: ClockOutput, freq: int)
    -> DeviceState {
    if frequency_outcome(state.xtal_freq as int, clk, freq) is Ok {
        routed(state, pll, clk, synthesis(state.xtal_freq as int, freq).num == 0)
    } else {
        state
    }
}

/// The numbers behind an optional set of spread-spectrum parameters.
pub open spec fn spread_fields(spread: Option<SpreadCoefficients>) -> Option<SpreadFields> {
    match spread {
        Some(c) => Some(c@),
        None => None,
    }
}

/// The state after output `clk` has been marked as meant to run, or not.
pub open spec fn with_clock_enabled(state: DeviceState, clk: ClockOutput, enabled: bool)
    -> DeviceState {
    DeviceState { enabled: with_bit(state.enabled, clk.ix(), enabled), ..state }
}

/// The state after output `clk` has been noted as fed from `pll`.
pub open spec fn with_clock_pll(state: DeviceState, clk: ClockOutput, pll: PLL) -> DeviceState {
    DeviceState { pll_source: with_bit(state.pll_source, clk.ix(), pll == PLL::B), ..state }
}

/// Enabling an output twice in a row is the same as enabling it once, and
/// so is disabling it: the second call leaves the state as the first one
/// made it, with the output's bit set, or cleared, exactly as after one.
pub proof fn lemma_set_clock_enabled_idempotent(
    state: DeviceState,
    clk: ClockOutput,
    enabled: bool,
)
    ensures
        with_clock_enabled(with_clock_enabled(state, clk, enabled), clk, enabled)
            == with_clock_enabled(state, clk, enabled),
        bit(with_clock_enabled(state, clk, enabled).enabled, clk.ix()) == enabled,
{
    lemma_with_bit_idempotent(state.enabled, clk.ix(), enabled);
    lemma_with_bit(state.enabled, clk.ix(), enabled);
}

/// Choosing the PLL of an output twice in a row is the same as choosing it
/// once.
pub proof fn lemma_select_clock_pll_idempotent(state: DeviceState, clk: ClockOutput, pll: PLL)
    ensures
        with_clock_pll(with_clock_pll(state, clk, pll), clk, pll) == with_clock_pll(
            state,
            clk,
            pll,
        ),
        bit(with_clock_pll(state, clk, pll).pll_source, clk.ix()) == (pll == PLL::B),
{
    lemma_with_bit_idempotent(state.pll_source, clk.ix(), pll == PLL::B);
    lemma_with_bit(state.pll_source, clk.ix(), pll == PLL::B);
}

impl Si5351Device {
    /// A driver for the chip whose address pin is at `address_bit`, clocked
    /// by a crystal of `xtal_freq` Hz. All outputs start powered down.
    pub fn new(address_bit: bool, xtal_freq: u32) -> (device: Self)
        ensures
            device@ == (DeviceState {
                address: if address_bit {
                    0x61u8
                } else {
                    0x60u8
                },
                xtal_freq,
                enabled: 0,
                integer_mode: 0,
                pll_source: 0,
            }),
    {
        assert(0x60u8 | 1u8 == 0x61u8 && 0x60u8 | 0u8 == 0x60u8) by (bit_vector);
        Si5351Device {
            address: ADDRESS | if address_bit {
                1
            } else {
                0
            },
            xtal_freq,
            clk_enabled_mask: 0,
            ms_int_mode_mask: 0,
            ms_src_mask: 0,
        }
    }

    /// A driver for the Adafruit breakout board: address pin low, 25 MHz
    /// crystal.
    pub fn new_adafruit_module() -> (device: Self)
        ensures
            device@ == (DeviceState {
                address: 0x60,
                xtal_freq: 25_000_000,
                enabled: 0,
                integer_mode: 0,
                pll_source: 0,
            }),
    {
        Si5351Device::new(false, ADAFRUIT_XTAL_FREQ)
    }

    /// Seven-bit bus address of the chip.
    pub fn address(&self) -> (a: u8)
        ensures
            a == self@.address,
    {
        self.address
    }

    /// Crystal frequency in Hz.
    pub fn xtal_freq(&self) -> (f: u32)
        ensures
            f == self@.xtal_freq,
    {
        self.xtal_freq
    }

    /// The outputs meant to run, one bit each.
    pub fn clk_enabled_mask(&self) -> (m: u8)
        ensures
            m == self@.enabled,
    {
        self.clk_enabled_mask
    }

    /// The units that divide by an integer, one bit each.
    pub fn ms_int_mode_mask(&self) -> (m: u8)
        ensures
            m == self@.integer_mode,
    {
        self.ms_int_mode_mask
    }

    /// The outputs fed from PLL B, one bit each.
    pub fn ms_src_mask(&self) -> (m: u8)
        ensures
            m == self@.pll_source,
    {
        self.ms_src_mask
    }

    /// The write that programs unit `ms` with the ratio
    /// `int_part + frac_num / frac_denom` and the output divider `r_div`, and a
    /// note in the integer-mode mask of whether the ratio has a fractional
    /// part.
    ///
    /// A fraction that cannot be programmed is refused with
    /// [`Error::InvalidParameter`] and leaves the state as it was. The
    /// chip's fields have no value for an integer part below 4, so such a
    /// part is not accepted.
    pub fn write_ms_config<MS: FractionalMultisynth + Copy>(
        &mut self,
        ms: MS,
        int_part: u16,
        frac_num: u32,
        frac_denom: u32,
        r_div: OutputDivider,
    ) -> (r: Result<BusWrite, Error>)
        requires
            int_part >= 4,
        ensures
            r is Ok <==> valid_fraction(frac_num as int, frac_denom as int),
            r is Err ==> r == Err::<BusWrite, Error>(Error::InvalidParameter) && final(self)@
                == old(self)@,
            r matches Ok(w) ==> {
                &&& w@ == block_frame(
                    old(self)@.address,
                    ms.spec_base_addr(),
                    ratio_payload(int_part as int, frac_num as int, frac_denom as int, r_div),
                )
                &&& final(self)@ == (DeviceState {
                    integer_mode: with_bit(old(self)@.integer_mode, ms.spec_ix(), frac_num == 0),
                    ..old(self)@
                })
            },
    {
        let (params, integer_mode) = match encode(int_part, frac_num, frac_denom, r_div) {
            Ok(encoded) => encoded,
            Err(e) => { return Err(e); },
        };
        let write = self.write_synth_registers(ms, params);
        let unit: u8 = 1u8 << ms.ix();
        proof {
            lemma_bit_operations(self.ms_int_mode_mask, ms.spec_ix());
        }
        if integer_mode {
            self.ms_int_mode_mask |= unit;
        } else {
            self.ms_int_mode_mask &= !unit;
        }
        Ok(write)
    }

    /// The write that resets `pll` so that it locks to the ratio last
    /// programmed.
    pub fn reset_pll(&self, pll: PLL) -> (w: BusWrite)
        ensures
            w@ == register_frame(
                self@.address,
                177,
                match pll {
                    PLL::A => 0x20u8,
                    PLL::B => 0x80u8,
                },
            ),
    {
        self.write_register(
            Register::PLLReset,
            match pll {
                PLL::A => PLLA_RST,
                PLL::B => PLLB_RST,
            },
        )
    }

    /// The read that fetches register `reg`.
    pub fn read_register(&self, reg: Register) -> (read: BusRead)
        ensures
            read == (BusRead { address: self@.address, register: reg.addr() }),
    {
        BusRead { address: self.address, register: reg.addr() }
    }

    /// The write that stores `byte` in register `reg`.
    pub fn write_register(&self, reg: Register, byte: u8) -> (w: BusWrite)
        ensures
            w@ == register_frame(self@.address, reg.addr(), byte),
    {
        let w = BusWrite { address: self.address, bytes: vec![reg.addr(), byte] };
        assert(w@.bytes =~= seq![reg.addr(), byte]);
        w
    }

    /// The write that stores the thirteen spread-spectrum parameters.
    pub fn write_ssc_registers(&self, params: [u8; 13]) -> (w: BusWrite)
        ensures
            w@ == block_frame(self@.address, SPREAD_SPECTRUM_BASE, params@),
    {
        let w = BusWrite {
            address: self.address,
            bytes: vec![
                SPREAD_SPECTRUM_BASE,
                params[0],
                params[1],
                params[2],
                params[3],
                params[4],
                params[5],
                params[6],
                params[7],
                params[8],
                params[9],
                params[10],
                params[11],
                params[12],
            ],
        };
        assert(w@.bytes =~= seq![SPREAD_SPECTRUM_BASE] + params@);
        w
    }

    /// The write that stores the eight parameters of unit `ms`.
    pub fn write_synth_registers<MS: FractionalMultisynth>(
        &self,
        ms: MS,
        params: [u8; 8],
    ) -> (w: BusWrite)
        ensures
            w@ == block_frame(self@.address, ms.spec_base_addr(), params@),
    {
        let base = ms.base_addr();
        let w = BusWrite {
            address: self.address,
            bytes: vec![
                base,
                params[0],
                params[1],
                params[2],
                params[3],
                params[4],
                params[5],
                params[6],
                params[7],
            ],
        };
        assert(w@.bytes =~= seq![base] + params@);
        w
    }
}

impl Si5351Device {
    /// The read that fetches the device-status register. The byte that
    /// comes back goes through [`DeviceStatusBits::from_bits_truncate`].
    pub fn read_device_status(&self) -> (read: BusRead)
        ensures
            read == (BusRead { address: self@.address, register: 0 }),
    {
        self.read_register(Register::DeviceStatus)
    }

    /// Marks output `clk` as meant to run, or not. Nothing reaches the chip
    /// before the next flush.
    pub fn set_clock_enabled(&mut self, clk: ClockOutput, enabled: bool)
        ensures
            final(self)@ == with_clock_enabled(old(self)@, clk, enabled),
            bit(final(self)@.enabled, clk.ix()) == enabled,
            forall|other: ClockOutput|
                other != clk ==> bit(final(self)@.enabled, #[trigger] other.ix()) == bit(
                    old(self)@.enabled,
                    other.ix(),
                ),
    {
        let unit: u8 = 1u8 << clk.ix();
        proof {
            lemma_bit_operations(self.clk_enabled_mask, clk.ix());
            lemma_with_bit(self.clk_enabled_mask, clk.ix(), enabled);
        }
        if enabled {
            self.clk_enabled_mask |= unit;
        } else {
            self.clk_enabled_mask &= !unit;
        }
    }

    /// The write that tells the chip which outputs run: the output-enable
    /// register holds a 0 for each enabled output.
    pub fn flush_output_enabled(&self) -> (w: BusWrite)
        ensures
            w@ == register_frame(self@.address, 3, complement(self@.enabled)),
    {
        let mask = self.clk_enabled_mask;
        proof {
            lemma_complement(mask);
        }
        self.write_register(Register::OutputEnable, !mask)
    }

    /// The write that brings the clock-control register of `clk` up to date
    /// with the three masks.
    pub fn flush_clock_control(&self, clk: ClockOutput) -> (w: BusWrite)
        ensures
            w@ == register_frame(
                self@.address,
                (16 + clk.ix()) as u8,
                clock_control_byte(self@, clk.ix()),
            ),
    {
        let unit: u8 = 1u8 << clk.ix();
        proof {
            lemma_bit_operations(self.clk_enabled_mask, clk.ix());
            lemma_bit_operations(self.ms_int_mode_mask, clk.ix());
            lemma_bit_operations(self.ms_src_mask, clk.ix());
        }
        let clk_control_pdn: u8 = if self.clk_enabled_mask & unit != 0 {
            0
        } else {
            CLK_PDN
        };
        let ms_int_mode: u8 = if self.ms_int_mode_mask & unit == 0 {
            0
        } else {
            MS_INT
        };
        let ms_src: u8 = if self.ms_src_mask & unit == 0 {
            0
        } else {
            MS_SRC
        };
        let base: u8 = CLK_SRC_MS | CLK_DRV_8;
        proof {
            lemma_control_bits(clk_control_pdn, ms_int_mode, ms_src);
        }
        self.write_register(clk.register(), clk_control_pdn | ms_int_mode | ms_src | base)
    }

    /// Programs `pll` with the integer multiplier `mult`.
    pub fn setup_pll_int(&mut self, pll: PLL, mult: u8) -> (r: Result<BusWrite, Error>)
        ensures
            r is Ok <==> 15 <= mult <= 90,
            r is Err ==> r == Err::<BusWrite, Error>(Error::InvalidParameter) && final(self)@
                == old(self)@,
            r matches Ok(w) ==> {
                &&& w@ == block_frame(
                    old(self)@.address,
                    pll.multisynth().spec_base_addr(),
                    ratio_payload(mult as int, 0, 1, OutputDivider::Div1),
                )
                &&& final(self)@ == (DeviceState {
                    integer_mode: with_bit(
                        old(self)@.integer_mode,
                        pll.multisynth().spec_ix(),
                        true,
                    ),
                    ..old(self)@
                })
            },
    {
        self.setup_pll(pll, mult, 0, 1)
    }

    /// Programs `pll` with the multiplier `mult + num / denom`.
    ///
    /// Refused with [`Error::InvalidParameter`], the state left as it was,
    /// exactly when `mult` lies outside `15..=90` or the fraction cannot be
    /// programmed.
    pub fn setup_pll(
        &mut self,
        pll: PLL,
        mult: u8,
        num: u32,
        denom: u32,
    ) -> (r: Result<BusWrite, Error>)
        ensures
            r is Ok <==> 15 <= mult <= 90 && valid_fraction(num as int, denom as int),
            r is Err ==> r == Err::<BusWrite, Error>(Error::InvalidParameter) && final(self)@
                == old(self)@,
            r matches Ok(w) ==> {
                &&& w@ == block_frame(
                    old(self)@.address,
                    pll.multisynth().spec_base_addr(),
                    ratio_payload(mult as int, num as int, denom as int, OutputDivider::Div1),
                )
                &&& final(self)@ == (DeviceState {
                    integer_mode: with_bit(
                        old(self)@.integer_mode,
                        pll.multisynth().spec_ix(),
                        num == 0,
                    ),
                    ..old(self)@
                })
            },
    {
        if mult < PLL_MULT_MIN || mult > PLL_MULT_MAX {
            return Err(Error::InvalidParameter);
        }
        self.write_ms_config(pll.multisynth(), mult as u16, num, denom, OutputDivider::Div1)
    }

    /// Programs output multisynth `ms` with the integer divider `mult`
    /// followed by the output divider `r_div`.
    pub fn setup_multisynth_int(
        &mut self,
        ms: Multisynth,
        mult: u16,
        r_div: OutputDivider,
    ) -> (r: Result<BusWrite, Error>)
        ensures
            r is Ok <==> 6 <= mult <= 1800,
            r is Err ==> r == Err::<BusWrite, Error>(Error::InvalidParameter) && final(self)@
                == old(self)@,
            r matches Ok(w) ==> {
                &&& w@ == block_frame(
                    old(self)@.address,
                    ms.spec_base_addr(),
                    ratio_payload(mult as int, 0, 1, r_div),
                )
                &&& final(self)@ == (DeviceState {
                    integer_mode: with_bit(old(self)@.integer_mode, ms.spec_ix(), true),
                    ..old(self)@
                })
            },
    {
        self.setup_multisynth(ms, mult, 0, 1, r_div)
    }

    /// Programs output multisynth `ms` with the divider `div + num / denom`
    /// followed by the output divider `r_div`.
    ///
    /// Refused with [`Error::InvalidParameter`], the state left as it was,
    /// exactly when `div` lies outside `6..=1800` or the fraction cannot be
    /// programmed.
    pub fn setup_multisynth(
        &mut self,
        ms: Multisynth,
        div: u16,
        num: u32,
        denom: u32,
        r_div: OutputDivider,
    ) -> (r: Result<BusWrite, Error>)
        ensures
            r is Ok <==> 6 <= div <= 1800 && valid_fraction(num as int, denom as int),
            r is Err ==> r == Err::<BusWrite, Error>(Error::InvalidParameter) && final(self)@
                == old(self)@,
            r matches Ok(w) ==> {
                &&& w@ == block_frame(
                    old(self)@.address,
                    ms.spec_base_addr(),
                    ratio_payload(div as int, num as int, denom as int, r_div),
                )
                &&& final(self)@ == (DeviceState {
                    integer_mode: with_bit(old(self)@.integer_mode, ms.spec_ix(), num == 0),
                    ..old(self)@
                })
            },
    {
        if div < MS_DIVIDER_MIN || div > MS_DIVIDER_MAX {
            return Err(Error::InvalidParameter);
        }
        self.write_ms_config(ms, div, num, denom, r_div)
    }

    /// Notes which PLL feeds output `clock`. Nothing reaches the chip before
    /// the next flush of the output's clock-control register.
    pub fn select_clock_pll(&mut self, clock: ClockOutput, pll: PLL)
        ensures
            final(self)@ == with_clock_pll(old(self)@, clock, pll),
            bit(final(self)@.pll_source, clock.ix()) == (pll == PLL::B),
            forall|other: ClockOutput|
                other != clock ==> bit(final(self)@.pll_source, #[trigger] other.ix()) == bit(
                    old(self)@.pll_source,
                    other.ix(),
                ),
    {
        let unit: u8 = 1u8 << clock.ix();
        proof {
            lemma_bit_operations(self.ms_src_mask, clock.ix());
            lemma_with_bit(self.ms_src_mask, clock.ix(), pll == PLL::B);
        }
        match pll {
            PLL::A => self.ms_src_mask &= !unit,
            PLL::B => self.ms_src_mask |= unit,
        }
    }

    /// The write that sets the phase offset of `clk`.
    ///
    /// Refused with [`Error::InvalidParameter`] exactly when `clk` is one of
    /// the last two outputs, which have no phase-offset register, or
    /// `offset` is odd.
    pub fn set_phase_offset(&self, clk: ClockOutput, offset: u8) -> (r: Result<BusWrite, Error>)
        ensures
            r is Ok <==> clk.ix() < 6 && offset % 2 == 0,
            r is Err ==> r == Err::<BusWrite, Error>(Error::InvalidParameter),
            r matches Ok(w) ==> w@ == register_frame(
                self@.address,
                (165 + clk.ix()) as u8,
                offset,
            ),
    {
        let reg = match clk.phase_offset_register() {
            Some(reg) => reg,
            None => { return Err(Error::InvalidParameter); },
        };
        proof {
            lemma_odd(offset);
        }
        if offset & 0b00000001 == 1 {
            return Err(Error::InvalidParameter);
        }
        Ok(self.write_register(reg, offset))
    }

    /// The write that sets the drive strength of `clk`.
    pub fn set_current(&self, clk: ClockOutput, current: Current) -> (w: BusWrite)
        ensures
            w@ == register_frame(self@.address, (16 + clk.ix()) as u8, current.bits()),
    {
        self.write_register(clk.register(), current.bits())
    }
}

impl Si5351Device {
    /// The next step of bringing the chip up, given the device status just
    /// read: nothing yet while the chip reports that it is still loading
    /// its configuration, in which case the status is to be read again;
    /// otherwise the writes that power down all outputs and set the crystal
    /// load.
    pub fn init(
        &self,
        status: DeviceStatusBits,
        xtal_load: CrystalLoad,
    ) -> (step: Option<Vec<BusWrite>>)
        ensures
            step is None <==> status.contains(SYS_INIT),
            step matches Some(writes) ==> frames(writes@) == init_frames(self@, xtal_load),
    {
        if status.contains(SYS_INIT) {
            return None;
        }
        let mut writes: Vec<BusWrite> = Vec::new();
        queue(&mut writes, self.flush_output_enabled());
        let clocks: [ClockOutput; 8] = [
            ClockOutput::Clk0,
            ClockOutput::Clk1,
            ClockOutput::Clk2,
            ClockOutput::Clk3,
            ClockOutput::Clk4,
            ClockOutput::Clk5,
            ClockOutput::Clk6,
            ClockOutput::Clk7,
        ];
        let ghost target = init_frames(self@, xtal_load);
        assert(frames(writes@) =~= target.subrange(0, 1));
        for i in 0..8
            invariant
                target == init_frames(self@, xtal_load),
                forall|j: int| 0 <= j < 8 ==> (#[trigger] clocks@[j]).spec_ix() == j,
                writes@.len() == 1 + i,
                frames(writes@) == target.subrange(0, 1 + i),
        {
            queue(&mut writes, self.write_register(clocks[i].register(), CLK_PDN));
            assert(frames(writes@) =~= target.subrange(0, 2 + i));
        }
        queue(&mut writes, self.write_register(Register::CrystalLoad, xtal_load.register_value()));
        assert(frames(writes@) =~= target);
        Some(writes)
    }

    /// The next step of bringing up the Adafruit breakout board, whose
    /// crystal wants a load of 10 pF.
    pub fn init_adafruit_module(&self, status: DeviceStatusBits) -> (step: Option<Vec<BusWrite>>)
        ensures
            step is None <==> status.contains(SYS_INIT),
            step matches Some(writes) ==> frames(writes@) == init_frames(self@, CrystalLoad::_10),
    {
        self.init(status, CrystalLoad::_10)
    }

    /// The output-stage dividers for an output of `freq` Hz with the PLL at
    /// or below `max_pll_freq` Hz: the multisynth divider and the output
    /// divider.
    ///
    /// The quotient of the two frequencies, kept to 16 bits, is the total
    /// divider. The output divider is the smallest one that is at least a
    /// 900th of it, and the multisynth divider is what remains, rounded
    /// down to an even number and raised to 6 where it is less. The search
    /// always succeeds, and the multisynth divider always lies in
    /// `6..=1800`.
    pub fn find_int_dividers_for_max_pll_freq(
        &self,
        max_pll_freq: u32,
        freq: u32,
    ) -> (r: Result<(u16, OutputDivider), Error>)
        requires
            freq > 0,
        ensures
            r matches Ok((ms_div, r_div)) && {
                let total = total_divider(max_pll_freq as int, freq as int);
                &&& r_div == output_divider(total)
                &&& r_div.is_min_divider(total / 900)
                &&& ms_div == ms_divider(total, r_div)
                &&& 6 <= ms_div <= 1800
                &&& ms_div % 2 == 0
            },
    {
        let quotient: u32 = max_pll_freq / freq;
        let total_divider: u16 = #[verifier::truncate] (quotient as u16);
        proof {
            lemma_narrowing_u16(quotient);
            lemma_dividers_in_range(total_divider as int);
        }
        let r_div = OutputDivider::min_divider(total_divider / MS_DIVIDER_TARGET)?;
        proof {
            r_div.lemma_denominator(total_divider as int);
        }

        let ms_div: u16 = (total_divider / (2 * r_div.denominator_u8() as u16) * 2).max(6);
        if ms_div > MS_DIVIDER_MAX {
            return Err(Error::InvalidParameter);
        }
        Ok((ms_div, r_div))
    }

    /// The PLL coefficients that make the PLL run at `freq * total_div` Hz:
    /// the integer part of the multiplier and the numerator of its fraction
    /// over `denom`.
    ///
    /// Refused with [`Error::InvalidParameter`] exactly when `denom` is zero
    /// or needs more than 20 bits. The integer part is kept to 8 bits; the
    /// numerator is always below `denom`.
    pub fn find_pll_coeffs_for_dividers(
        &self,
        total_div: u32,
        denom: u32,
        freq: u32,
    ) -> (r: Result<(u8, u32), Error>)
        requires
            self@.xtal_freq > 0,
        ensures
            r is Ok <==> 0 < denom <= 0xFFFFF,
            r is Err ==> r == Err::<(u8, u32), Error>(Error::InvalidParameter),
            r matches Ok((mult, num)) ==> {
                &&& mult == pll_multiplier(self@.xtal_freq as int, freq * total_div)
                &&& num == pll_numerator(self@.xtal_freq as int, freq * total_div, denom as int)
                &&& num < denom
            },
    {
        if denom == 0 || denom > PLL_DENOM {
            return Err(Error::InvalidParameter);
        }
        assert(freq * total_div <= 0xFFFF_FFFF * 0xFFFF_FFFF) by (nonlinear_arith)
            requires
                freq <= 0xFFFF_FFFF,
                total_div <= 0xFFFF_FFFF,
        ;
        let xtal: u64 = self.xtal_freq as u64;
        let pll_freq: u64 = freq as u64 * total_div as u64;

        let whole: u64 = pll_freq / xtal;
        let mult: u8 = #[verifier::truncate] (whole as u8);
        let rest: u64 = pll_freq % xtal;
        assert(rest * denom < xtal * denom && xtal * denom <= 0xFFFF_FFFF * 0xFFFFF) by (
            nonlinear_arith)
            requires
                rest < xtal,
                0 < denom <= 0xFFFFF,
                xtal <= 0xFFFF_FFFF,
        ;
        let scaled: u64 = rest * denom as u64;
        let f: u64 = scaled / xtal;
        assert(f < denom) by (nonlinear_arith)
            requires
                f == scaled / xtal,
                scaled < xtal * denom,
                xtal > 0,
        ;
        proof {
            lemma_narrowing_u8(whole);
        }
        Ok((mult, f as u32))
    }

    /// The write that programs the spread-spectrum registers with `params`
    /// and switches center spread on.
    pub fn setup_spread_spectrum(&self, _pll: PLL, params: &SpreadCoefficients) -> (w: BusWrite)
        ensures
            w@ == spread_frame(self@.address, params@),
    {
        self.write_ssc_registers(params.register_bytes())
    }

    /// Everything it takes to bring output `clk` to `freq` Hz from `pll`,
    /// with spread spectrum where `spread` holds its parameters.
    ///
    /// The writes are those of [`frequency_writes`], the outcome that of
    /// [`frequency_outcome`], the state afterwards that of
    /// [`frequency_state`]. The writes must go out in the order given: the
    /// spread-spectrum parameters before the PLL they describe, the PLL
    /// before the output multisynth, the clock-control byte before the PLL
    /// reset, and the output-enable mask last. The state is advanced as if
    /// every write had reached the chip.
    pub fn set_frequency(
        &mut self,
        pll: PLL,
        clk: ClockOutput,
        freq: u32,
        spread: Option<SpreadCoefficients>,
    ) -> (plan: WritePlan)
        requires
            freq > 0,
            old(self)@.xtal_freq > 0,
        ensures
            plan.frames() == frequency_writes(
                old(self)@,
                pll,
                clk,
                freq as int,
                spread_fields(spread),
            ),
            plan.outcome == frequency_outcome(old(self)@.xtal_freq as int, clk, freq as int),
            final(self)@ == frequency_state(old(self)@, pll, clk, freq as int),
    {
        let mut writes: Vec<BusWrite> = Vec::new();
        let denom: u32 = PLL_DENOM;
        let (ms_divider, r_div) = match self.find_int_dividers_for_max_pll_freq(MAX_PLL_FREQ, freq) {
            Ok(found) => found,
            Err(e) => { return WritePlan { writes, outcome: Err(e) }; },
        };
        proof {
            r_div.lemma_denominator(ms_divider as int);
            assert(ms_divider * r_div.denominator_u8() <= 1800 * 128) by (nonlinear_arith)
                requires
                    ms_divider <= 1800,
                    r_div.denominator_u8() <= 128,
            ;
        }
        let total_div: u32 = ms_divider as u32 * r_div.denominator_u8() as u32;
        let (mult, num) = match self.find_pll_coeffs_for_dividers(total_div, denom, freq) {
            Ok(found) => found,
            Err(e) => { return WritePlan { writes, outcome: Err(e) }; },
        };
        let ms = match clk.multisynth() {
            Some(ms) => ms,
            None => { return WritePlan { writes, outcome: Err(Error::InvalidParameter) }; },
        };

        if let Some(params) = spread {
            queue(&mut writes, self.setup_spread_spectrum(pll, &params));
        }
        let ghost first = frames(writes@);

        match self.setup_pll(pll, mult, num, denom) {
            Ok(write) => queue(&mut writes, write),
            Err(e) => { return WritePlan { writes, outcome: Err(e) }; },
        }
        match self.setup_multisynth_int(ms, ms_divider, r_div) {
            Ok(write) => queue(&mut writes, write),
            Err(e) => { return WritePlan { writes, outcome: Err(e) }; },
        }
        self.select_clock_pll(clk, pll);
        self.set_clock_enabled(clk, true);
        queue(&mut writes, self.flush_clock_control(clk));
        queue(&mut writes, self.reset_pll(pll));
        queue(&mut writes, self.flush_output_enabled());

        assert(frames(writes@) =~= first + frequency_frames(
            old(self)@,
            pll,
            clk,
            synthesis(old(self)@.xtal_freq as int, freq as int),
        ));
        WritePlan { writes, outcome: Ok(()) }
    }
}

} // verus!
