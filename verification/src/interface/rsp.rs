use vstd::prelude::*;
use crate::byte_order::{read_word_at, store_word, word_at, write_word_at};
use crate::fault::Fault;

verus! {

pub const SP_IMEM_START: u32 = 0x1000;
pub const SP_IMEM_LENGTH: u32 = 0x1000;
pub const SP_IMEM_END: u32 = 0x1FFF;
pub const SP_STATUS_REG: u32 = 0x40010;
pub const SP_DMA_FULL_REG: u32 = 0x40014;
pub const SP_DMA_BUSY_REG: u32 = 0x40018;

/// The signal processor: its instruction memory and its control flags.
#[derive(Debug)]
pub struct Rsp {
    pub imem: Vec<u8>,
    pub halt: bool,
    pub broke: bool,
    pub intr: bool,
    pub single_step: bool,
    pub intr_on_break: bool,
    pub signal: Vec<bool>,
    pub dma_busy: bool,
    pub dma_full: bool,
}

/// The state of the signal processor as plain values.
pub struct RspState {
    pub imem: Seq<u8>,
    pub halt: bool,
    pub broke: bool,
    pub intr: bool,
    pub single_step: bool,
    pub intr_on_break: bool,
    pub signal: Seq<bool>,
    pub dma_busy: bool,
    pub dma_full: bool,
}

impl View for Rsp {
    type V = RspState;

    open spec fn view(&self) -> RspState {
        RspState {
            imem: self.imem@,
            halt: self.halt,
            broke: self.broke,
            intr: self.intr,
            single_step: self.single_step,
            intr_on_break: self.intr_on_break,
            signal: self.signal@,
            dma_busy: self.dma_busy,
            dma_full: self.dma_full,
        }
    }
}

/// Whether bit `bit` of `value` is set.
pub open spec fn bit_set(value: u32, bit: u32) -> bool {
    value & (1u32 << bit) != 0
}

/// A flag after a status write that names one bit to clear it and one to
/// set it: set wins over clear, and with neither bit the flag stays.
pub open spec fn flag_after(before: bool, value: u32, clear_bit: u32, set_bit: u32) -> bool {
    if bit_set(value, set_bit) {
        true
    } else if bit_set(value, clear_bit) {
        false
    } else {
        before
    }
}

impl RspState {
    /// The power-on state: zeroed instruction memory, every flag clear.
    pub open spec fn power_on() -> RspState {
        RspState {
            imem: Seq::new(SP_IMEM_LENGTH as nat, |i: int| 0u8),
            halt: false,
            broke: false,
            intr: false,
            single_step: false,
            intr_on_break: false,
            signal: Seq::new(8, |i: int| false),
            dma_busy: false,
            dma_full: false,
        }
    }

    /// The instruction memory has its fixed size and there are eight
    /// signal flags.
    pub open spec fn wf(&self) -> bool {
        &&& self.imem.len() == SP_IMEM_LENGTH
        &&& self.signal.len() == 8
    }

    /// What a read of offset `addr` yields in this state.
    pub open spec fn read_result(&self, addr: u32) -> Result<u32, Fault> {
        if SP_IMEM_START <= addr <= SP_IMEM_END {
            if addr - SP_IMEM_START + 4 <= self.imem.len() {
                Ok(word_at(self.imem, addr - SP_IMEM_START))
            } else {
                Err(Fault::Address { address: addr as u64 })
            }
        } else if addr == SP_STATUS_REG {
            Ok(1u32)
        } else if addr == SP_DMA_BUSY_REG {
            Ok(if self.dma_busy {
                1u32
            } else {
                0u32
            })
        } else if addr == SP_DMA_FULL_REG {
            Ok(if self.dma_full {
                1u32
            } else {
                0u32
            })
        } else {
            Err(Fault::Address { address: addr as u64 })
        }
    }

    /// The state after a write of `value` to the status register, or the
    /// fault raised when the write names one of the signal bits 9..24.
    pub open spec fn status_written(&self, value: u32) -> Result<RspState, Fault> {
        if (value >> 9) & 0xffff != 0 {
            Err(Fault::UnsupportedOperation { address: SP_STATUS_REG as u64, value: value as u64 })
        } else {
            Ok(
                RspState {
                    halt: flag_after(self.halt, value, 0, 1),
                    broke: if bit_set(value, 2) {
                        false
                    } else {
                        self.broke
                    },
                    intr: flag_after(self.intr, value, 3, 4),
                    single_step: flag_after(self.single_step, value, 5, 6),
                    intr_on_break: flag_after(self.intr_on_break, value, 7, 8),
                    ..*self
                },
            )
        }
    }

    /// The state after a write of `value` to offset `addr`, or the fault
    /// that the write raises.
    pub open spec fn write_result(&self, addr: u32, value: u32) -> Result<RspState, Fault> {
        if SP_IMEM_START <= addr <= SP_IMEM_END {
            if addr - SP_IMEM_START + 4 <= self.imem.len() {
                Ok(RspState { imem: store_word(self.imem, addr - SP_IMEM_START, value), ..*self })
            } else {
                Err(Fault::Address { address: addr as u64 })
            }
        } else if addr == SP_STATUS_REG {
            self.status_written(value)
        } else {
            Err(Fault::UnsupportedOperation { address: addr as u64, value: value as u64 })
        }
    }
}

impl Rsp {
    /// A signal processor with zeroed instruction memory and every flag
    /// clear.
    pub fn new() -> (rsp: Rsp)
        ensures
            rsp@.wf(),
            rsp@ == RspState::power_on(),
    {
        let rsp = Rsp {
            imem: vec![0u8; SP_IMEM_LENGTH as usize],
            halt: false,
            broke: false,
            intr: false,
            single_step: false,
            intr_on_break: false,
            signal: vec![false; 8],
            dma_busy: false,
            dma_full: false,
        };
        assert(rsp@.imem =~= RspState::power_on().imem);
        assert(rsp@.signal =~= RspState::power_on().signal);
        rsp
    }

    /// Reads the word at offset `addr`: instruction memory, or one of the
    /// three readable registers.  A word that would run past the end of
    /// the instruction memory is an address fault.
    pub fn read(&self, addr: u32) -> (r: Result<u32, Fault>)
        requires
            self@.wf(),
        ensures
            r == self@.read_result(addr),
    {
        if SP_IMEM_START <= addr && addr <= SP_IMEM_END {
            if addr - SP_IMEM_START <= SP_IMEM_LENGTH - 4 {
                Ok(self.read_imem(addr - SP_IMEM_START))
            } else {
                Err(Fault::Address { address: addr as u64 })
            }
        } else if addr == SP_STATUS_REG {
            Ok(self.read_status_reg())
        } else if addr == SP_DMA_BUSY_REG {
            Ok(self.read_dma_busy_reg())
        } else if addr == SP_DMA_FULL_REG {
            Ok(self.read_dma_full_reg())
        } else {
            Err(Fault::Address { address: addr as u64 })
        }
    }

    /// Writes the word at offset `addr`: instruction memory or the status
    /// register.  A faulting write changes nothing.
    pub fn write(&mut self, addr: u32, value: u32) -> (r: Result<(), Fault>)
        requires
            old(self)@.wf(),
        ensures
            final(self)@.wf(),
            match old(self)@.write_result(addr, value) {
                Ok(after) => r is Ok && final(self)@ == after,
                Err(f) => r == Err::<(), Fault>(f) && final(self)@ == old(self)@,
            },
    {
        if SP_IMEM_START <= addr && addr <= SP_IMEM_END {
            if addr - SP_IMEM_START <= SP_IMEM_LENGTH - 4 {
                self.write_imem(addr - SP_IMEM_START, value);
                Ok(())
            } else {
                Err(Fault::Address { address: addr as u64 })
            }
        } else if addr == SP_STATUS_REG {
            self.write_status_reg(value)
        } else {
            Err(Fault::UnsupportedOperation { address: addr as u64, value: value as u64 })
        }
    }

    fn read_imem(&self, addr: u32) -> (r: u32)
        requires
            addr + 4 <= self.imem@.len(),
        ensures
            r == word_at(self.imem@, addr as int),
    {
        read_word_at(self.imem.as_slice(), addr as usize)
    }

    fn write_imem(&mut self, addr: u32, value: u32)
        requires
            addr + 4 <= old(self).imem@.len(),
        ensures
            final(self)@ == (RspState {
                imem: store_word(old(self).imem@, addr as int, value),
                ..old(self)@
            }),
    {
        write_word_at(&mut self.imem, addr as usize, value);
    }

    fn read_dma_full_reg(&self) -> (r: u32)
        ensures
            r == if self.dma_full {
                1u32
            } else {
                0u32
            },
    {
        if self.dma_full {
            1
        } else {
            0
        }
    }

    fn read_dma_busy_reg(&self) -> (r: u32)
        ensures
            r == if self.dma_busy {
                1u32
            } else {
                0u32
            },
    {
        if self.dma_busy {
            1
        } else {
            0
        }
    }

    fn read_status_reg(&self) -> (r: u32)
        ensures
            r == 1,
    {
        1
    }

    fn write_status_reg(&mut self, value: u32) -> (r: Result<(), Fault>)
        ensures
            match old(self)@.status_written(value) {
                Ok(after) => r is Ok && final(self)@ == after,
                Err(f) => r == Err::<(), Fault>(f) && final(self)@ == old(self)@,
            },
    {
        if (value >> 9) & 0xffff != 0 {
            return Err(
                Fault::UnsupportedOperation { address: SP_STATUS_REG as u64, value: value as u64 },
            );
        }
        if value & (1u32 << 0) != 0 {
            self.halt = false;
        }
        if value & (1u32 << 1) != 0 {
            self.halt = true;
        }
        if value & (1u32 << 2) != 0 {
            self.broke = false;
        }
        if value & (1u32 << 3) != 0 {
            self.intr = false;
        }
        if value & (1u32 << 4) != 0 {
            self.intr = true;
        }
        if value & (1u32 << 5) != 0 {
            self.single_step = false;
        }
        if value & (1u32 << 6) != 0 {
            self.single_step = true;
        }
        if value & (1u32 << 7) != 0 {
            self.intr_on_break = false;
        }
        if value & (1u32 << 8) != 0 {
            self.intr_on_break = true;
        }
        Ok(())
    }
}

/// A word written to instruction memory is the word read back from there.
pub proof fn lemma_imem_written_is_read(s: RspState, addr: u32, value: u32)
    requires
        s.wf(),
        SP_IMEM_START <= addr,
        addr + 4 <= SP_IMEM_START + SP_IMEM_LENGTH,
    ensures
        s.write_result(addr, value) is Ok,
        s.write_result(addr, value).unwrap().wf(),
        s.write_result(addr, value).unwrap().read_result(addr) == Ok::<u32, Fault>(value),
{
    crate::byte_order::lemma_store_then_read(s.imem, addr - SP_IMEM_START, value);
}

} // verus!
