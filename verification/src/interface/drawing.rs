use vstd::prelude::*;
use crate::fault::Fault;

verus! {

pub const DPC_STATUS_REG: u32 = 0x0C;
pub const DPC_CLOCK_REG: u32 = 0x10;

/// Register block of the display processor's command interface.
#[derive(Clone, Copy, Debug, PartialEq, Eq, Structural)]
pub struct Drawing {
    pub clock: u32,
}

impl Default for Drawing {
    fn default() -> (d: Drawing)
        ensures
            d == (Drawing { clock: 0 }),
    {
        Drawing { clock: 0 }
    }
}

impl Drawing {
    /// What a read of register offset `addr` yields in this state.
    pub open spec fn read_result(&self, addr: u32) -> Result<u32, Fault> {
        if addr == DPC_STATUS_REG {
            Ok(0u32)
        } else if addr == DPC_CLOCK_REG {
            Ok(self.clock & 0xFFFFFF)
        } else {
            Err(Fault::Address { address: addr as u64 })
        }
    }

    /// Reads the register at offset `addr`: the status register reads as
    /// zero, the clock register as its low 24 bits.
    pub fn read(&self, addr: u32) -> (r: Result<u32, Fault>)
        ensures
            r == self.read_result(addr),
    {
        if addr == DPC_STATUS_REG {
            Ok(self.read_status_reg())
        } else if addr == DPC_CLOCK_REG {
            Ok(self.clock & 0xFFFFFF)
        } else {
            Err(Fault::Address { address: addr as u64 })
        }
    }

    /// No register of this block can be written: every write faults and
    /// leaves the block unchanged.
    pub fn write(&mut self, addr: u32, value: u32) -> (r: Result<(), Fault>)
        ensures
            r == Err::<(), Fault>(
                Fault::UnsupportedOperation { address: addr as u64, value: value as u64 },
            ),
            *final(self) == *old(self),
    {
        self.write_status_reg(addr, value)
    }

    fn write_status_reg(&mut self, addr: u32, value: u32) -> (r: Result<(), Fault>)
        ensures
            r == Err::<(), Fault>(
                Fault::UnsupportedOperation { address: addr as u64, value: value as u64 },
            ),
            *final(self) == *old(self),
    {
        Err(Fault::UnsupportedOperation { address: addr as u64, value: value as u64 })
    }

    fn read_status_reg(&self) -> (r: u32)
        ensures
            r == 0,
    {
        0
    }
}

} // verus!
