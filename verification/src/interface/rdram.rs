use vstd::prelude::*;
use crate::byte_order::{read_word_at, store_word, word_at, write_word_at};
use crate::fault::Fault;
use crate::memory_map::RDRAM_MEM_SIZE;

verus! {

pub const REG_CONFIG: u32 = 0x00;
pub const REG_DEVICE_ID: u32 = 0x04;
pub const REG_DELAY: u32 = 0x08;
pub const REG_MODE: u32 = 0x0C;
pub const REG_REF_INTERVAL: u32 = 0x10;
pub const REG_REF_ROW: u32 = 0x14;
pub const REG_RAS_INTERVAL: u32 = 0x18;
pub const REG_MIN_INTERVAL: u32 = 0x1C;
pub const REG_ADDR_SELECT: u32 = 0x20;
pub const REG_DEVICE_MANUF: u32 = 0x24;

/// The ten registers of the RAM controller.
#[derive(Clone, Copy, Debug, PartialEq, Eq, Structural)]
pub struct RdramReg {
    pub config: u32,
    pub device_id: u32,
    pub delay: u32,
    pub mode: u32,
    pub ref_interval: u32,
    pub ref_row: u32,
    pub ras_interval: u32,
    pub min_interval: u32,
    pub addr_select: u32,
    pub device_manuf: u32,
}

impl Default for RdramReg {
    fn default() -> (r: RdramReg)
        ensures
            r == RdramReg::zeroed(),
    {
        RdramReg {
            config: 0,
            device_id: 0,
            delay: 0,
            mode: 0,
            ref_interval: 0,
            ref_row: 0,
            ras_interval: 0,
            min_interval: 0,
            addr_select: 0,
            device_manuf: 0,
        }
    }
}

impl RdramReg {
    /// Every register zero.
    pub open spec fn zeroed() -> RdramReg {
        RdramReg {
            config: 0,
            device_id: 0,
            delay: 0,
            mode: 0,
            ref_interval: 0,
            ref_row: 0,
            ras_interval: 0,
            min_interval: 0,
            addr_select: 0,
            device_manuf: 0,
        }
    }

    /// The register at offset `addr`, if the offset names one.
    pub open spec fn get(&self, addr: u32) -> Option<u32> {
        if addr == REG_CONFIG {
            Some(self.config)
        } else if addr == REG_DEVICE_ID {
            Some(self.device_id)
        } else if addr == REG_DELAY {
            Some(self.delay)
        } else if addr == REG_MODE {
            Some(self.mode)
        } else if addr == REG_REF_INTERVAL {
            Some(self.ref_interval)
        } else if addr == REG_REF_ROW {
            Some(self.ref_row)
        } else if addr == REG_RAS_INTERVAL {
            Some(self.ras_interval)
        } else if addr == REG_MIN_INTERVAL {
            Some(self.min_interval)
        } else if addr == REG_ADDR_SELECT {
            Some(self.addr_select)
        } else if addr == REG_DEVICE_MANUF {
            Some(self.device_manuf)
        } else {
            None
        }
    }

    /// The registers with the one at offset `addr` replaced by `value`, if
    /// the offset names one.
    pub open spec fn set(&self, addr: u32, value: u32) -> Option<RdramReg> {
        if addr == REG_CONFIG {
            Some(RdramReg { config: value, ..*self })
        } else if addr == REG_DEVICE_ID {
            Some(RdramReg { device_id: value, ..*self })
        } else if addr == REG_DELAY {
            Some(RdramReg { delay: value, ..*self })
        } else if addr == REG_MODE {
            Some(RdramReg { mode: value, ..*self })
        } else if addr == REG_REF_INTERVAL {
            Some(RdramReg { ref_interval: value, ..*self })
        } else if addr == REG_REF_ROW {
            Some(RdramReg { ref_row: value, ..*self })
        } else if addr == REG_RAS_INTERVAL {
            Some(RdramReg { ras_interval: value, ..*self })
        } else if addr == REG_MIN_INTERVAL {
            Some(RdramReg { min_interval: value, ..*self })
        } else if addr == REG_ADDR_SELECT {
            Some(RdramReg { addr_select: value, ..*self })
        } else if addr == REG_DEVICE_MANUF {
            Some(RdramReg { device_manuf: value, ..*self })
        } else {
            None
        }
    }
}

/// Main memory and the registers of its controller.
#[derive(Debug)]
pub struct Rdram {
    pub mem: Vec<u8>,
    pub reg: RdramReg,
}

/// The state of main memory and its controller as plain values.
pub struct RdramState {
    pub mem: Seq<u8>,
    pub reg: RdramReg,
}

impl View for Rdram {
    type V = RdramState;

    open spec fn view(&self) -> RdramState {
        RdramState { mem: self.mem@, reg: self.reg }
    }
}

impl RdramState {
    /// The power-on state: memory and registers zeroed.
    pub open spec fn power_on() -> RdramState {
        RdramState {
            mem: Seq::new(RDRAM_MEM_SIZE as nat, |i: int| 0u8),
            reg: RdramReg::zeroed(),
        }
    }

    /// The memory has its fixed size.
    pub open spec fn wf(&self) -> bool {
        self.mem.len() == RDRAM_MEM_SIZE
    }

    /// What a read of the memory word at offset `addr` yields.  A word that
    /// would run past the end of memory is an address fault.
    pub open spec fn mem_read_result(&self, addr: u32) -> Result<u32, Fault> {
        if addr + 4 <= self.mem.len() {
            Ok(word_at(self.mem, addr as int))
        } else {
            Err(Fault::Address { address: addr as u64 })
        }
    }

    /// The state after a write of `value` to the memory word at offset
    /// `addr`, or the fault that the write raises.
    pub open spec fn mem_write_result(&self, addr: u32, value: u32) -> Result<RdramState, Fault> {
        if addr + 4 <= self.mem.len() {
            Ok(RdramState { mem: store_word(self.mem, addr as int, value), reg: self.reg })
        } else {
            Err(Fault::Address { address: addr as u64 })
        }
    }

    /// What a read of the register at offset `addr` yields.
    pub open spec fn reg_read_result(&self, addr: u32) -> Result<u32, Fault> {
        match self.reg.get(addr) {
            Some(v) => Ok(v),
            None => Err(Fault::Address { address: addr as u64 }),
        }
    }

    /// The state after a write of `value` to the register at offset `addr`,
    /// or the fault that the write raises.
    pub open spec fn reg_write_result(&self, addr: u32, value: u32) -> Result<RdramState, Fault> {
        match self.reg.set(addr, value) {
            Some(reg) => Ok(RdramState { mem: self.mem, reg }),
            None => Err(
                Fault::UnsupportedOperation { address: addr as u64, value: value as u64 },
            ),
        }
    }
}

impl Rdram {
    /// Zeroed main memory with zeroed controller registers.
    pub fn new() -> (rdram: Rdram)
        ensures
            rdram@.wf(),
            rdram@ == RdramState::power_on(),
    {
        let rdram = Rdram { mem: vec![0u8; RDRAM_MEM_SIZE as usize], reg: RdramReg::default() };
        assert(rdram@.mem =~= RdramState::power_on().mem);
        rdram
    }

    /// Reads the memory word at offset `addr`.
    pub fn read_mem(&self, addr: u32) -> (r: Result<u32, Fault>)
        requires
            self@.wf(),
        ensures
            r == self@.mem_read_result(addr),
    {
        if addr <= RDRAM_MEM_SIZE - 4 {
            Ok(read_word_at(self.mem.as_slice(), addr as usize))
        } else {
            Err(Fault::Address { address: addr as u64 })
        }
    }

    /// Writes the memory word at offset `addr`.  A faulting write changes
    /// nothing.
    pub fn write_mem(&mut self, addr: u32, value: u32) -> (r: Result<(), Fault>)
        requires
            old(self)@.wf(),
        ensures
            final(self)@.wf(),
            match old(self)@.mem_write_result(addr, value) {
                Ok(after) => r is Ok && final(self)@ == after,
                Err(f) => r == Err::<(), Fault>(f) && final(self)@ == old(self)@,
            },
    {
        if addr <= RDRAM_MEM_SIZE - 4 {
            write_word_at(&mut self.mem, addr as usize, value);
            Ok(())
        } else {
            Err(Fault::Address { address: addr as u64 })
        }
    }

    /// Reads the controller register at offset `addr`.
    pub fn read_reg(&self, addr: u32) -> (r: Result<u32, Fault>)
        ensures
            r == self@.reg_read_result(addr),
    {
        if addr == REG_CONFIG {
            Ok(self.reg.config)
        } else if addr == REG_DEVICE_ID {
            Ok(self.reg.device_id)
        } else if addr == REG_DELAY {
            Ok(self.reg.delay)
        } else if addr == REG_MODE {
            Ok(self.reg.mode)
        } else if addr == REG_REF_INTERVAL {
            Ok(self.reg.ref_interval)
        } else if addr == REG_REF_ROW {
            Ok(self.reg.ref_row)
        } else if addr == REG_RAS_INTERVAL {
            Ok(self.reg.ras_interval)
        } else if addr == REG_MIN_INTERVAL {
            Ok(self.reg.min_interval)
        } else if addr == REG_ADDR_SELECT {
            Ok(self.reg.addr_select)
        } else if addr == REG_DEVICE_MANUF {
            Ok(self.reg.device_manuf)
        } else {
            Err(Fault::Address { address: addr as u64 })
        }
    }

    /// Writes the controller register at offset `addr`.  A faulting write
    /// changes nothing.
    pub fn write_reg(&mut self, addr: u32, value: u32) -> (r: Result<(), Fault>)
        ensures
            match old(self)@.reg_write_result(addr, value) {
                Ok(after) => r is Ok && final(self)@ == after,
                Err(f) => r == Err::<(), Fault>(f) && final(self)@ == old(self)@,
            },
    {
        if addr == REG_CONFIG {
            self.reg.config = value;
        } else if addr == REG_DEVICE_ID {
            self.reg.device_id = value;
        } else if addr == REG_DELAY {
            self.reg.delay = value;
        } else if addr == REG_MODE {
            self.reg.mode = value;
        } else if addr == REG_REF_INTERVAL {
            self.reg.ref_interval = value;
        } else if addr == REG_REF_ROW {
            self.reg.ref_row = value;
        } else if addr == REG_RAS_INTERVAL {
            self.reg.ras_interval = value;
        } else if addr == REG_MIN_INTERVAL {
            self.reg.min_interval = value;
        } else if addr == REG_ADDR_SELECT {
            self.reg.addr_select = value;
        } else if addr == REG_DEVICE_MANUF {
            self.reg.device_manuf = value;
        } else {
            return Err(
                Fault::UnsupportedOperation { address: addr as u64, value: value as u64 },
            );
        }
        Ok(())
    }
}

/// A register that was written reads back the value written, and every
/// other register reads as before.
pub proof fn lemma_reg_written_is_read(regs: RdramReg, addr: u32, value: u32, other: u32)
    requires
        regs.get(addr) is Some,
    ensures
        regs.set(addr, value) is Some,
        regs.set(addr, value).unwrap().get(addr) == Some(value),
        other != addr ==> regs.set(addr, value).unwrap().get(other) == regs.get(other),
{
}

/// A word written to memory is the word read back from there.
pub proof fn lemma_mem_written_is_read(s: RdramState, addr: u32, value: u32)
    requires
        s.wf(),
        addr + 4 <= RDRAM_MEM_SIZE,
    ensures
        s.mem_write_result(addr, value) is Ok,
        s.mem_write_result(addr, value).unwrap().mem_read_result(addr) == Ok::<u32, Fault>(value),
{
    crate::byte_order::lemma_store_then_read(s.mem, addr as int, value);
}

} // verus!
