use vstd::prelude::*;
use crate::byte_order::{be_byte, read_word_at, store_word, word_at, write_word_at};
use crate::fault::Fault;

verus! {

pub const PIF_ROM_START: u32 = 0x0000;
pub const PIF_ROM_END: u32 = 0x07bf;
pub const PIF_RAM_SIZE: usize = 0x40;
pub const PIF_RAM_START: u32 = 0x07c0;
pub const PIF_RAM_END: u32 = 0x07ff;

/// Offset in the boot RAM of the word that the boot code reads its seed
/// from.
pub const PIF_SEED_OFFSET: usize = 0x24;

/// The seed that the boot RAM holds at power-on.
pub const TEST_SEED: u32 = 0x00023F3F;

/// The boot block: the boot ROM image and the 64 bytes of boot RAM.
#[derive(Debug)]
pub struct Pif {
    pub rom: Vec<u8>,
    pub ram: Vec<u8>,
}

/// The state of the boot block as plain values.
pub struct PifState {
    pub rom: Seq<u8>,
    pub ram: Seq<u8>,
}

impl View for Pif {
    type V = PifState;

    open spec fn view(&self) -> PifState {
        PifState { rom: self.rom@, ram: self.ram@ }
    }
}

impl PifState {
    /// The power-on state around a ROM image: the RAM zeroed but for the
    /// seed.
    pub open spec fn power_on(rom: Seq<u8>) -> PifState {
        PifState {
            rom,
            ram: store_word(
                Seq::new(PIF_RAM_SIZE as nat, |i: int| 0u8),
                PIF_SEED_OFFSET as int,
                TEST_SEED,
            ),
        }
    }

    /// The boot RAM has its fixed size.
    pub open spec fn wf(&self) -> bool {
        self.ram.len() == PIF_RAM_SIZE
    }

    /// What a read of offset `addr` yields in this state.  A word that
    /// would run past the end of the ROM image or of the RAM is an
    /// address fault.
    pub open spec fn read_result(&self, addr: u32) -> Result<u32, Fault> {
        if addr <= PIF_ROM_END {
            if addr + 4 <= self.rom.len() {
                Ok(word_at(self.rom, addr as int))
            } else {
                Err(Fault::Address { address: addr as u64 })
            }
        } else if addr <= PIF_RAM_END {
            if addr - PIF_RAM_START + 4 <= self.ram.len() {
                Ok(word_at(self.ram, addr - PIF_RAM_START))
            } else {
                Err(Fault::Address { address: addr as u64 })
            }
        } else {
            Err(Fault::Address { address: addr as u64 })
        }
    }

    /// The state after a write of `value` to offset `addr`, or the fault
    /// that the write raises.  The ROM cannot be written.
    pub open spec fn write_result(&self, addr: u32, value: u32) -> Result<PifState, Fault> {
        if addr <= PIF_ROM_END {
            Err(Fault::UnsupportedOperation { address: addr as u64, value: value as u64 })
        } else if addr <= PIF_RAM_END {
            if addr - PIF_RAM_START + 4 <= self.ram.len() {
                Ok(PifState { rom: self.rom, ram: store_word(self.ram, addr - PIF_RAM_START, value) })
            } else {
                Err(Fault::Address { address: addr as u64 })
            }
        } else {
            Err(Fault::Address { address: addr as u64 })
        }
    }
}

/// Places the power-on seed in the boot RAM.
pub fn fix_ram(ram: &mut Vec<u8>)
    requires
        old(ram)@.len() == PIF_RAM_SIZE,
    ensures
        final(ram)@ == store_word(old(ram)@, PIF_SEED_OFFSET as int, TEST_SEED),
{
    assert(((TEST_SEED >> 24) & 0xff) as u8 == be_byte(TEST_SEED, 0)) by (bit_vector);
    ram[0x24] = ((TEST_SEED >> 24) & 0xff) as u8;
    ram[0x25] = ((TEST_SEED >> 16) & 0xff) as u8;
    ram[0x26] = ((TEST_SEED >> 8) & 0xff) as u8;
    ram[0x27] = (TEST_SEED & 0xff) as u8;
}

impl Pif {
    /// A boot block around the given ROM image, its RAM zeroed but for
    /// the seed.
    pub fn new(pifrom: Vec<u8>) -> (pif: Pif)
        ensures
            pif@.wf(),
            pif@ == PifState::power_on(pifrom@),
    {
        let mut ram = vec![0u8; PIF_RAM_SIZE];
        assert(ram@ =~= Seq::new(PIF_RAM_SIZE as nat, |i: int| 0u8));
        fix_ram(&mut ram);
        Pif { rom: pifrom, ram: ram }
    }

    /// Reads the word at offset `addr` of the boot block.
    pub fn read(&self, addr: u32) -> (r: Result<u32, Fault>)
        requires
            self@.wf(),
        ensures
            r == self@.read_result(addr),
    {
        if addr <= PIF_ROM_END {
            if self.rom.len() >= 4 && addr as usize <= self.rom.len() - 4 {
                Ok(read_word_at(self.rom.as_slice(), addr as usize))
            } else {
                Err(Fault::Address { address: addr as u64 })
            }
        } else if addr <= PIF_RAM_END {
            let at: u32 = addr - PIF_RAM_START;
            if at as usize <= PIF_RAM_SIZE - 4 {
                Ok(read_word_at(self.ram.as_slice(), at as usize))
            } else {
                Err(Fault::Address { address: addr as u64 })
            }
        } else {
            Err(Fault::Address { address: addr as u64 })
        }
    }

    /// Writes the word at offset `addr` of the boot block.  A faulting
    /// write changes nothing.
    pub fn write(&mut self, addr: u32, value: u32) -> (r: Result<(), Fault>)
        requires
            old(self)@.wf(),
        ensures
            final(self)@.wf(),
            match old(self)@.write_result(addr, value) {
                Ok(after) => r is Ok && final(self)@ == after,
                Err(f) => r == Err::<(), Fault>(f) && final(self)@ == old(self)@,
            },
    {
        if addr <= PIF_ROM_END {
            Err(Fault::UnsupportedOperation { address: addr as u64, value: value as u64 })
        } else if addr <= PIF_RAM_END {
            let at: u32 = addr - PIF_RAM_START;
            if at as usize <= PIF_RAM_SIZE - 4 {
                write_word_at(&mut self.ram, at as usize, value);
                Ok(())
            } else {
                Err(Fault::Address { address: addr as u64 })
            }
        } else {
            Err(Fault::Address { address: addr as u64 })
        }
    }
}

/// At power-on the seed word of the boot RAM reads as the seed.
pub proof fn lemma_seed_is_read(rom: Seq<u8>)
    ensures
        PifState::power_on(rom).read_result((PIF_RAM_START + 0x24) as u32) == Ok::<u32, Fault>(
            TEST_SEED,
        ),
{
    crate::byte_order::lemma_store_then_read(
        Seq::new(PIF_RAM_SIZE as nat, |i: int| 0u8),
        PIF_SEED_OFFSET as int,
        TEST_SEED,
    );
}

/// A word written to the boot RAM is the word read back from there.
pub proof fn lemma_ram_written_is_read(s: PifState, addr: u32, value: u32)
    requires
        s.wf(),
        PIF_RAM_START <= addr,
        addr + 4 <= PIF_RAM_START + PIF_RAM_SIZE,
    ensures
        s.write_result(addr, value) is Ok,
        s.write_result(addr, value).unwrap().read_result(addr) == Ok::<u32, Fault>(value),
{
    crate::byte_order::lemma_store_then_read(s.ram, addr - PIF_RAM_START, value);
}

} // verus!
