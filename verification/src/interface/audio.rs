use vstd::prelude::*;
use crate::fault::Fault;

verus! {

pub const AI_DRAM_ADDR_REG: u32 = 0;
pub const AI_LENGTH_REG: u32 = 4;

/// Register block of the audio interface.
#[derive(Clone, Copy, Debug, PartialEq, Eq, Structural)]
pub struct Audio {
    pub dram_address: u32,
    pub length: u32,
}

impl Default for Audio {
    fn default() -> (a: Audio)
        ensures
            a == (Audio { dram_address: 0, length: 0 }),
    {
        Audio { dram_address: 0, length: 0 }
    }
}

impl Audio {
    /// What a read of register offset `addr` yields in this state.
    pub open spec fn read_result(&self, addr: u32) -> Result<u32, Fault> {
        if addr == AI_LENGTH_REG {
            Ok(self.length & 0x3FFFF)
        } else {
            Err(Fault::Address { address: addr as u64 })
        }
    }

    /// The state after a write of `value` to register offset `addr`, or the
    /// fault that the write raises.
    pub open spec fn write_result(&self, addr: u32, value: u32) -> Result<Audio, Fault> {
        if addr == AI_DRAM_ADDR_REG {
            Ok(Audio { dram_address: value & 0xFFFFFF, length: self.length })
        } else if addr == AI_LENGTH_REG {
            Ok(Audio { dram_address: self.dram_address, length: value & 0x3FFFF })
        } else {
            Err(Fault::UnsupportedOperation { address: addr as u64, value: value as u64 })
        }
    }

    /// Reads the register at offset `addr`.  Only the length register can
    /// be read.
    pub fn read(&self, addr: u32) -> (r: Result<u32, Fault>)
        ensures
            r == self.read_result(addr),
    {
        if addr == AI_LENGTH_REG {
            Ok(self.read_length_reg())
        } else {
            Err(Fault::Address { address: addr as u64 })
        }
    }

    /// Writes the register at offset `addr`.  A faulting write changes
    /// nothing.
    pub fn write(&mut self, addr: u32, value: u32) -> (r: Result<(), Fault>)
        ensures
            match old(self).write_result(addr, value) {
                Ok(after) => r is Ok && *final(self) == after,
                Err(f) => r == Err::<(), Fault>(f) && *final(self) == *old(self),
            },
    {
        if addr == AI_DRAM_ADDR_REG {
            self.write_dram_addr(value);
            Ok(())
        } else if addr == AI_LENGTH_REG {
            self.write_length_ref(value);
            Ok(())
        } else {
            Err(Fault::UnsupportedOperation { address: addr as u64, value: value as u64 })
        }
    }

    fn write_dram_addr(&mut self, value: u32)
        ensures
            *final(self) == (Audio { dram_address: value & 0xFFFFFF, length: old(self).length }),
    {
        self.dram_address = value & 0xFFFFFF;
    }

    fn read_length_reg(&self) -> (r: u32)
        ensures
            r == self.length & 0x3FFFF,
    {
        self.length & 0x3FFFF
    }

    fn write_length_ref(&mut self, value: u32)
        ensures
            *final(self) == (Audio {
                dram_address: old(self).dram_address,
                length: value & 0x3FFFF,
            }),
    {
        self.length = value & 0x3FFFF;
    }
}

/// A length that was written is the length that is read back, cut to the
/// register's 18 bits.
pub proof fn lemma_length_written_is_read(a: Audio, value: u32)
    ensures
        a.write_result(AI_LENGTH_REG, value) is Ok,
        a.write_result(AI_LENGTH_REG, value).unwrap().read_result(AI_LENGTH_REG) == Ok::<
            u32,
            Fault,
        >(value & 0x3FFFF),
{
    assert((value & 0x3FFFF) & 0x3FFFF == value & 0x3FFFF) by (bit_vector);
}

} // verus!
