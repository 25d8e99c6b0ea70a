use vstd::prelude::*;
use crate::fault::Fault;

verus! {

pub const SI_STATUS_REG: u32 = 0x18;

/// Register block of the serial interface.
#[derive(Clone, Copy, Debug, PartialEq, Eq, Structural)]
pub struct Serial {
    pub status: u32,
}

impl Default for Serial {
    fn default() -> (s: Serial)
        ensures
            s == (Serial { status: 0 }),
    {
        Serial { status: 0 }
    }
}

impl Serial {
    /// What a read of register offset `addr` yields in this state.
    pub open spec fn read_result(&self, addr: u32) -> Result<u32, Fault> {
        if addr == SI_STATUS_REG {
            Ok(self.status & 0x100f)
        } else {
            Err(Fault::Address { address: addr as u64 })
        }
    }

    /// The state after a write of `value` to register offset `addr`, or the
    /// fault that the write raises.  A write to the status register toggles
    /// the interrupt bit, whatever value is written.
    pub open spec fn write_result(&self, addr: u32, value: u32) -> Result<Serial, Fault> {
        if addr == SI_STATUS_REG {
            Ok(Serial { status: self.status ^ 0x1000 })
        } else {
            Err(Fault::UnsupportedOperation { address: addr as u64, value: value as u64 })
        }
    }

    /// Reads the register at offset `addr`.
    pub fn read(&self, addr: u32) -> (r: Result<u32, Fault>)
        ensures
            r == self.read_result(addr),
    {
        if addr == SI_STATUS_REG {
            Ok(self.status & 0x100f)
        } else {
            Err(Fault::Address { address: addr as u64 })
        }
    }

    /// Writes the register at offset `addr`.  A faulting write changes
    /// nothing.
    pub fn write(&mut self, addr: u32, value: u32) -> (r: Result<(), Fault>)
        ensures
            match old(self).write_result(addr, value) {
                Ok(after) => r is Ok && *final(self) == after,
                Err(f) => r == Err::<(), Fault>(f) && *final(self) == *old(self),
            },
    {
        if addr == SI_STATUS_REG {
            self.status = self.status ^ 0x1000;
            Ok(())
        } else {
            Err(Fault::UnsupportedOperation { address: addr as u64, value: value as u64 })
        }
    }
}

/// Two writes to the status register restore it.
pub proof fn lemma_status_toggle_twice(s: Serial, v1: u32, v2: u32)
    ensures
        s.write_result(SI_STATUS_REG, v1).unwrap().write_result(SI_STATUS_REG, v2) == Ok::<
            Serial,
            Fault,
        >(s),
{
    let x = s.status;
    assert((x ^ 0x1000) ^ 0x1000 == x) by (bit_vector);
}

} // verus!
