//! Register-level driver core for the Si5351 two-PLL clock synthesizer.
//!
//! The crate computes; it never touches a bus. Every operation returns the
//! register writes that carry it out, and the caller hands them to its I2C
//! transport in the order given.
//!
//! - [`registers`] and [`synth`] hold the chip's address map.
//! - [`encoder`] packs a fractional divider ratio into register bytes.
//! - [`search`] finds the dividers and PLL coefficients for a frequency.
//! - [`spread`] packs spread-spectrum parameters.
//! - [`mask`] is the arithmetic of the per-output flag bytes.
//! - [`bus`] describes the transfers handed to the caller.
//! - [`device`] is the driver itself: its state and its operations.

pub mod bus;
pub mod device;
pub mod encoder;
pub mod error;
pub mod mask;
pub mod registers;
pub mod search;
pub mod spread;
pub mod synth;

pub use bus::{BusRead, BusWrite, WritePlan};
pub use device::Si5351Device;
pub use error::{i2c_error, Error};
pub use registers::{CrystalLoad, Current, DeviceStatusBits, Register};
pub use spread::SpreadCoefficients;
pub use synth::{
    ClockOutput, FeedbackMultisynth, FractionalMultisynth, Multisynth, OutputDivider,
    SimpleMultisynth, PLL,
};
