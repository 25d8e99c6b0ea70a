use vstd::prelude::*;
use crate::bus::{Bus, BusState};
use crate::cpu::cpu::{Cpu, CpuState};
use crate::fault::Fault;
use crate::interface::cartridge::CART_MIN_SIZE;

verus! {

/// The whole machine: the processor with the bus and everything behind it.
#[derive(Debug)]
pub struct N64 {
    pub cpu: Cpu,
}

impl N64 {
    /// The machine at reset around the two images: the boot ROM and the
    /// cartridge ROM, which must hold its header and boot code.
    pub fn new(pifrom: Vec<u8>, cartrom: Vec<u8>) -> (n64: N64)
        requires
            cartrom@.len() >= CART_MIN_SIZE,
        ensures
            n64.cpu@.wf(),
            n64.cpu@ == CpuState::reset(BusState::power_on(pifrom@, cartrom@)),
    {
        let bus = Bus::new(pifrom, cartrom);
        let cpu = Cpu::new(bus);
        N64 { cpu: cpu }
    }

    /// Puts the processor's configuration and program counter back to
    /// their power-on values.
    pub fn power_on_reset(&mut self)
        ensures
            final(self).cpu@.regs == old(self).cpu@.regs.with_pc(crate::cpu::cpu::PIF_ROM_START),
            final(self).cpu@.bus == old(self).cpu@.bus,
            final(self).cpu@.pipelines == old(self).cpu@.pipelines,
            final(self).cpu@.pcycle_phase == old(self).cpu@.pcycle_phase,
            final(self).cpu@.cp0.reg_status == old(self).cpu@.cp0.reg_status,
            final(self).cpu@.cp0.reg_config == (crate::cpu::cp0::reg_config::RegConfigState {
                transfer_data_pattern: crate::cpu::cp0::reg_config::TransferDataPattern::D,
                endianness: crate::cpu::cp0::reg_config::Endianness::BigEndian,
                ..old(self).cpu@.cp0.reg_config
            }),
    {
        self.cpu.power_on_reset();
    }

    /// Runs up to `limit` clock phases and stops at the first fault, which
    /// is returned.
    pub fn run(&mut self, limit: u64) -> (r: Result<(), Fault>)
        requires
            old(self).cpu@.wf(),
        ensures
            final(self).cpu@.wf(),
            final(self).cpu@ == old(self).cpu@.run(limit as nat),
            r == match old(self).cpu@.run_fault(limit as nat) {
                Some(f) => Err::<(), Fault>(f),
                None => Ok::<(), Fault>(()),
            },
    {
        self.cpu.run(limit)
    }

    /// Runs one clock phase of the processor.
    pub fn run_instruction(&mut self) -> (r: Result<(), Fault>)
        requires
            old(self).cpu@.wf(),
        ensures
            final(self).cpu@.wf(),
            final(self).cpu@ == old(self).cpu@.ticked(),
            r == match old(self).cpu@.tick_fault() {
                Some(f) => Err::<(), Fault>(f),
                None => Ok::<(), Fault>(()),
            },
    {
        self.cpu.tick()
    }
}

} // verus!
