//! The bus transfers that the driver asks its caller to perform.

use vstd::prelude::*;
use crate::error::Error;

verus! {

/// What one write transfer puts on the bus.
pub struct Frame {
    /// Seven-bit address of the chip.
    pub address: u8,
    /// The register address, then the bytes stored from there on.
    pub bytes: Seq<u8>,
}

/// One write transfer: `bytes` go to the chip at `address`. The first byte
/// names the register at which the chip starts storing the others.
#[derive(Debug, PartialEq, Eq)]
pub struct BusWrite {
    pub address: u8,
    pub bytes: Vec<u8>,
}

impl View for BusWrite {
    type V = Frame;

    open spec fn view(&self) -> Frame {
        Frame { address: self.address, bytes: self.bytes@ }
    }
}

/// One register read: the register address is written to the chip at
/// `address`, then a single byte is read back.
#[derive(Debug, Clone, Copy, PartialEq, Eq, Structural)]
pub struct BusRead {
    pub address: u8,
    pub register: u8,
}

/// The frames of a list of writes, in order.
pub open spec fn frames(writes: Seq<BusWrite>) -> Seq<Frame> {
    writes.map_values(|w: BusWrite| w@)
}

/// Appends `write` to the writes planned so far.
pub(crate) fn queue(writes: &mut Vec<BusWrite>, write: BusWrite)
    ensures
        final(writes)@ == old(writes)@.push(write),
        frames(final(writes)@) == frames(old(writes)@).push(write@),
{
    writes.push(write);
    assert(frames(writes@) =~= frames(old(writes)@).push(write@));
}

/// The frame that stores `payload` in consecutive registers from `base` on.
pub open spec fn block_frame(address: u8, base: u8, payload: Seq<u8>) -> Frame {
    Frame { address, bytes: seq![base] + payload }
}

/// The frame that stores `byte` in the register at `register`.
pub open spec fn register_frame(address: u8, register: u8, byte: u8) -> Frame {
    Frame { address, bytes: seq![register, byte] }
}

/// A sequence of writes to perform in order, and what the operation reports
/// after the last of them has gone out.
///
/// Where `outcome` is an error the operation stops there: `writes` holds
/// what it had already committed to before it found the fault.
#[derive(Debug, PartialEq, Eq)]
pub struct WritePlan {
    pub writes: Vec<BusWrite>,
    pub outcome: Result<(), Error>,
}

impl WritePlan {
    /// The frames of the plan, in the order they go out.
    pub open spec fn frames(&self) -> Seq<Frame> {
        frames(self.writes@)
    }
}

} // verus!
