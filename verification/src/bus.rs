use vstd::prelude::*;
use crate::cpu::physical_address::PAddr;
use crate::fault::Fault;
use crate::interface::audio::Audio;
use crate::interface::cartridge::{Cartridge, CartridgeState, CART_MIN_SIZE};
use crate::interface::drawing::Drawing;
use crate::interface::peripheral::Peripheral;
use crate::interface::pif::{Pif, PifState};
use crate::interface::rdram::{Rdram, RdramState};
use crate::interface::rsp::{Rsp, RspState};
use crate::interface::serial::Serial;
use crate::interface::video::Video;
use crate::memory_map::{located, map_addr, Addr};

verus! {

/// The physical address router.  It owns every hardware block and memory
/// array, and forwards each access to the block whose window holds the
/// address.
#[derive(Debug)]
pub struct Bus {
    pub pif: Pif,
    pub rsp: Rsp,
    pub pi: Peripheral,
    pub vi: Video,
    pub ai: Audio,
    pub si: Serial,
    pub cd1: Cartridge,
    pub dpc: Drawing,
    pub rdram: Rdram,
}

/// The state of everything behind the bus as plain values.
pub struct BusState {
    pub pif: PifState,
    pub rsp: RspState,
    pub pi: Peripheral,
    pub vi: Video,
    pub ai: Audio,
    pub si: Serial,
    pub cd1: CartridgeState,
    pub dpc: Drawing,
    pub rdram: RdramState,
}

impl View for Bus {
    type V = BusState;

    open spec fn view(&self) -> BusState {
        BusState {
            pif: self.pif@,
            rsp: self.rsp@,
            pi: self.pi,
            vi: self.vi,
            ai: self.ai,
            si: self.si,
            cd1: self.cd1@,
            dpc: self.dpc,
            rdram: self.rdram@,
        }
    }
}

/// The state after a block's write, set into the bus by `put`, or the
/// block's fault.
pub open spec fn routed<S>(
    written: Result<S, Fault>,
    put: spec_fn(S) -> BusState,
) -> Result<BusState, Fault> {
    match written {
        Ok(after) => Ok(put(after)),
        Err(f) => Err(f),
    }
}

impl BusState {
    /// The power-on state around the two images.
    pub open spec fn power_on(pifrom: Seq<u8>, cartrom: Seq<u8>) -> BusState {
        BusState {
            pif: PifState::power_on(pifrom),
            rsp: RspState::power_on(),
            pi: Peripheral::default_state(),
            vi: Video::default_state(),
            ai: Audio { dram_address: 0, length: 0 },
            si: Serial { status: 0 },
            cd1: CartridgeState { rom: cartrom, crc_fix: 0 },
            dpc: Drawing { clock: 0 },
            rdram: RdramState::power_on(),
        }
    }

    /// Every memory array behind the bus has its size.
    pub open spec fn wf(&self) -> bool {
        &&& self.pif.wf()
        &&& self.rsp.wf()
        &&& self.cd1.wf()
        &&& self.rdram.wf()
    }

    /// What a read at an already resolved location yields.  The first
    /// cartridge window always reads as zero.
    pub open spec fn read_at(&self, location: Addr) -> Result<u32, Fault> {
        match location {
            Addr::RDRAM(rel) => self.rdram.mem_read_result(rel),
            Addr::RDRAMREG(rel) => self.rdram.reg_read_result(rel),
            Addr::PIF(rel) => self.pif.read_result(rel),
            Addr::RSP(rel) => self.rsp.read_result(rel),
            Addr::PERIPHERAL(rel) => self.pi.read_result(rel),
            Addr::VIDEO(rel) => self.vi.read_result(rel),
            Addr::AUDIO(rel) => self.ai.read_result(rel),
            Addr::SERIAL(rel) => self.si.read_result(rel),
            Addr::CARTDOM11(_) => Ok(0u32),
            Addr::CARTDOM12(rel) => Ok(self.cd1.read_result(rel)),
            Addr::DPC(rel) => self.dpc.read_result(rel),
        }
    }

    /// What a read of the word at physical address `addr` yields: the
    /// answer of the block that owns the address, or an address fault when
    /// no window holds it.
    pub open spec fn read_result(&self, addr: u32) -> Result<u32, Fault> {
        match located(addr) {
            Ok(location) => self.read_at(location),
            Err(f) => Err(f),
        }
    }

    /// The state after a write at an already resolved location, or the
    /// fault that the write raises.  The cartridge and the display
    /// processor accept no write.
    pub open spec fn write_at(&self, location: Addr, addr: u32, value: u32) -> Result<
        BusState,
        Fault,
    > {
        match location {
            Addr::RDRAM(rel) => routed(
                self.rdram.mem_write_result(rel, value),
                |s: RdramState| BusState { rdram: s, ..*self },
            ),
            Addr::RDRAMREG(rel) => routed(
                self.rdram.reg_write_result(rel, value),
                |s: RdramState| BusState { rdram: s, ..*self },
            ),
            Addr::PIF(rel) => routed(
                self.pif.write_result(rel, value),
                |s: PifState| BusState { pif: s, ..*self },
            ),
            Addr::RSP(rel) => routed(
                self.rsp.write_result(rel, value),
                |s: RspState| BusState { rsp: s, ..*self },
            ),
            Addr::PERIPHERAL(rel) => routed(
                self.pi.write_result(rel, value),
                |s: Peripheral| BusState { pi: s, ..*self },
            ),
            Addr::VIDEO(rel) => routed(
                self.vi.write_result(rel, value),
                |s: Video| BusState { vi: s, ..*self },
            ),
            Addr::AUDIO(rel) => routed(
                self.ai.write_result(rel, value),
                |s: Audio| BusState { ai: s, ..*self },
            ),
            Addr::SERIAL(rel) => routed(
                self.si.write_result(rel, value),
                |s: Serial| BusState { si: s, ..*self },
            ),
            Addr::CARTDOM11(_) => Err(
                Fault::UnsupportedOperation { address: addr as u64, value: value as u64 },
            ),
            Addr::CARTDOM12(rel) => Err(
                Fault::UnsupportedOperation { address: rel as u64, value: value as u64 },
            ),
            Addr::DPC(rel) => Err(
                Fault::UnsupportedOperation { address: rel as u64, value: value as u64 },
            ),
        }
    }

    /// The state after a write of `value` to physical address `addr`, or
    /// the fault that the write raises.
    pub open spec fn write_result(&self, addr: u32, value: u32) -> Result<BusState, Fault> {
        match located(addr) {
            Ok(location) => self.write_at(location, addr, value),
            Err(f) => Err(f),
        }
    }
}

impl Bus {
    /// A bus around the two images: the boot ROM and the cartridge ROM.
    /// Every block starts in its power-on state.
    pub fn new(pifrom: Vec<u8>, cartrom: Vec<u8>) -> (bus: Bus)
        requires
            cartrom@.len() >= CART_MIN_SIZE,
        ensures
            bus@.wf(),
            bus@ == BusState::power_on(pifrom@, cartrom@),
    {
        Bus {
            pif: Pif::new(pifrom),
            rsp: Rsp::new(),
            pi: Peripheral::default(),
            vi: Video::default(),
            ai: Audio::default(),
            si: Serial::default(),
            cd1: Cartridge::new(cartrom),
            dpc: Drawing::default(),
            rdram: Rdram::new(),
        }
    }

    /// Reads the word at physical address `addr`.
    pub fn read_word(&self, addr: PAddr) -> (r: Result<u32, Fault>)
        requires
            self@.wf(),
        ensures
            r == self@.read_result(addr.0),
    {
        match map_addr(addr) {
            Err(f) => Err(f),
            Ok(Addr::RDRAM(rel_addr)) => self.rdram.read_mem(rel_addr),
            Ok(Addr::RDRAMREG(rel_addr)) => self.rdram.read_reg(rel_addr),
            Ok(Addr::PIF(rel_addr)) => self.pif.read(rel_addr),
            Ok(Addr::RSP(rel_addr)) => self.rsp.read(rel_addr),
            Ok(Addr::PERIPHERAL(rel_addr)) => self.pi.read(rel_addr),
            Ok(Addr::VIDEO(rel_addr)) => self.vi.read(rel_addr),
            Ok(Addr::AUDIO(rel_addr)) => self.ai.read(rel_addr),
            Ok(Addr::SERIAL(rel_addr)) => self.si.read(rel_addr),
            Ok(Addr::CARTDOM11(_)) => Ok(0),
            Ok(Addr::CARTDOM12(rel_addr)) => Ok(self.cd1.read(rel_addr)),
            Ok(Addr::DPC(rel_addr)) => self.dpc.read(rel_addr),
        }
    }

    /// Writes the word at physical address `addr`.  A faulting write
    /// changes nothing.
    pub fn write_word(&mut self, addr: PAddr, value: u32) -> (r: Result<(), Fault>)
        requires
            old(self)@.wf(),
        ensures
            final(self)@.wf(),
            match old(self)@.write_result(addr.0, value) {
                Ok(after) => r is Ok && final(self)@ == after,
                Err(f) => r == Err::<(), Fault>(f) && final(self)@ == old(self)@,
            },
    {
        match map_addr(addr) {
            Err(f) => Err(f),
            Ok(Addr::RDRAM(rel_addr)) => self.rdram.write_mem(rel_addr, value),
            Ok(Addr::RDRAMREG(rel_addr)) => self.rdram.write_reg(rel_addr, value),
            Ok(Addr::PIF(rel_addr)) => self.pif.write(rel_addr, value),
            Ok(Addr::RSP(rel_addr)) => self.rsp.write(rel_addr, value),
            Ok(Addr::PERIPHERAL(rel_addr)) => self.pi.write(rel_addr, value),
            Ok(Addr::VIDEO(rel_addr)) => self.vi.write(rel_addr, value),
            Ok(Addr::AUDIO(rel_addr)) => self.ai.write(rel_addr, value),
            Ok(Addr::SERIAL(rel_addr)) => self.si.write(rel_addr, value),
            Ok(Addr::CARTDOM11(_)) => Err(
                Fault::UnsupportedOperation { address: addr.0 as u64, value: value as u64 },
            ),
            Ok(Addr::CARTDOM12(rel_addr)) => self.cd1.write(rel_addr, value),
            Ok(Addr::DPC(rel_addr)) => self.dpc.write(rel_addr, value),
        }
    }
}

/// Every access is routed to the one block whose window holds the
/// address: a read at an address yields what the block at the address's
/// location answers, and a write changes what the block at that location
/// changes.
pub proof fn lemma_routed_to_owner(bus: BusState, location: Addr, addr: u32, value: u32)
    requires
        location.locates(addr),
    ensures
        bus.read_result(addr) == bus.read_at(location),
        bus.write_result(addr, value) == bus.write_at(location, addr, value),
{
    crate::memory_map::lemma_located_iff(addr, location);
}

/// An access to an address that no window holds is an address fault and
/// changes nothing.
pub proof fn lemma_unmapped_faults(bus: BusState, addr: u32, value: u32)
    requires
        forall|location: Addr| !location.locates(addr),
    ensures
        bus.read_result(addr) == Err::<u32, Fault>(Fault::Address { address: addr as u64 }),
        bus.write_result(addr, value) == Err::<BusState, Fault>(
            Fault::Address { address: addr as u64 },
        ),
{
    crate::memory_map::lemma_located_iff(addr, Addr::RDRAM(0));
}

/// The first cartridge window reads as zero at every address and refuses
/// every write.
pub proof fn lemma_first_cartridge_window(bus: BusState, addr: u32, value: u32)
    requires
        crate::memory_map::CARTDOM1_ADDR1_START <= addr <= crate::memory_map::CARTDOM1_ADDR1_END,
    ensures
        bus.read_result(addr) == Ok::<u32, Fault>(0u32),
        bus.write_result(addr, value) == Err::<BusState, Fault>(
            Fault::UnsupportedOperation { address: addr as u64, value: value as u64 },
        ),
{
}

} // verus!
