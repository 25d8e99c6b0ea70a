use vstd::prelude::*;
use std::collections::VecDeque;
use crate::bus::{Bus, BusState};
use crate::cpu::cp0::cp0::{Cp0State, CP0};
use crate::cpu::pipeline::Pipeline;
use crate::cpu::registers::{Registers, RegistersState, RegistersUsed};
use crate::fault::Fault;

verus! {

/// The most instructions that are in flight at once.
pub const PIPELINE_LENGTH: usize = 5;

/// The reset vector: the first address of the boot ROM, in kseg1.
pub const PIF_ROM_START: u64 = 0xffff_ffff_bfc0_0000;

/// The processor: the register file, the system control coprocessor, the
/// bus with everything behind it, and the instructions in flight, oldest
/// first.
#[derive(Debug)]
pub struct Cpu {
    pub reg: Registers,
    pub cp0: CP0,
    pub bus: Bus,
    pub pipelines: VecDeque<Pipeline>,
    pub pcycle_phase: u64,
}

/// The state of the processor as plain values.
pub struct CpuState {
    pub regs: RegistersState,
    pub cp0: Cp0State,
    pub bus: BusState,
    pub pipelines: Seq<Pipeline>,
    pub pcycle_phase: u64,
}

impl View for Cpu {
    type V = CpuState;

    open spec fn view(&self) -> CpuState {
        CpuState {
            regs: self.reg@,
            cp0: self.cp0@,
            bus: self.bus@,
            pipelines: self.pipelines@,
            pcycle_phase: self.pcycle_phase,
        }
    }
}

/// What the instructions in flight leave after one cycle each: their new
/// states, the register file, the coprocessor, and the fault that stopped
/// the run, if one did.
pub struct Advance {
    pub pipelines: Seq<Pipeline>,
    pub regs: RegistersState,
    pub cp0: Cp0State,
    pub fault: Option<Fault>,
}

/// The queue after admission: a fresh instruction joins at the back while
/// fewer than `PIPELINE_LENGTH` are in flight.
pub open spec fn admitted(pipelines: Seq<Pipeline>) -> Seq<Pipeline> {
    if pipelines.len() < PIPELINE_LENGTH {
        pipelines.push(Pipeline::fresh())
    } else {
        pipelines
    }
}

/// The queue after retirement: the oldest instruction leaves if it is
/// complete.  A complete instruction behind an incomplete one stays.
pub open spec fn retired(pipelines: Seq<Pipeline>) -> Seq<Pipeline> {
    if pipelines.len() > 0 && pipelines[0].complete() {
        pipelines.subrange(1, pipelines.len() as int)
    } else {
        pipelines
    }
}

/// One cycle of each instruction from position `from` on, oldest first.
/// Each instruction sees the register file and coprocessor as the older
/// ones left them, and forwards from the hazard record of the one just
/// before it, as that one's cycle left it.  The first fault stops the
/// run: the faulting instruction and the younger ones stay as they were.
pub open spec fn advance_from(
    pipelines: Seq<Pipeline>,
    from: nat,
    regs: RegistersState,
    bus: BusState,
    cp0: Cp0State,
    prev: Option<RegistersUsed>,
) -> Advance
    decreases pipelines.len() - from,
{
    if from >= pipelines.len() {
        Advance { pipelines, regs, cp0, fault: None }
    } else {
        match pipelines[from as int].cycle(regs, bus, cp0, prev) {
            Err(f) => Advance { pipelines, regs, cp0, fault: Some(f) },
            Ok(c) => advance_from(
                pipelines.update(from as int, c.pipeline),
                from + 1,
                c.regs,
                bus,
                c.cp0,
                c.pipeline.reg_used,
            ),
        }
    }
}

impl CpuState {
    /// Everything behind the bus has its size, at most `PIPELINE_LENGTH`
    /// instructions are in flight, and each of them is well formed.
    pub open spec fn wf(&self) -> bool {
        &&& self.bus.wf()
        &&& self.pipelines.len() <= PIPELINE_LENGTH
        &&& forall|i: int| 0 <= i < self.pipelines.len() ==> (#[trigger] self.pipelines[i]).wf()
    }

    /// What the instructions in flight leave after admission and one cycle
    /// each.
    pub open spec fn advanced(&self) -> Advance {
        advance_from(admitted(self.pipelines), 0, self.regs, self.bus, self.cp0, None)
    }

    /// The state at reset around a bus: registers zero, the program
    /// counter at the reset vector, nothing in flight.
    pub open spec fn reset(bus: BusState) -> CpuState {
        CpuState {
            regs: RegistersState::zeroed().with_pc(PIF_ROM_START),
            cp0: Cp0State::reset(),
            bus,
            pipelines: Seq::<Pipeline>::empty(),
            pcycle_phase: 0,
        }
    }

    /// The fault that stops the next clock phase, if one does.
    pub open spec fn tick_fault(&self) -> Option<Fault> {
        self.advanced().fault
    }

    /// The state after up to `limit` clock phases: the run stops at the
    /// first phase that faults.
    pub open spec fn run(&self, limit: nat) -> CpuState
        decreases limit,
    {
        if limit == 0 {
            *self
        } else if self.tick_fault() is Some {
            self.ticked()
        } else {
            self.ticked().run((limit - 1) as nat)
        }
    }

    /// The fault that stops a run of up to `limit` clock phases, if one
    /// does.
    pub open spec fn run_fault(&self, limit: nat) -> Option<Fault>
        decreases limit,
    {
        if limit == 0 {
            None
        } else if self.tick_fault() is Some {
            self.tick_fault()
        } else {
            self.ticked().run_fault((limit - 1) as nat)
        }
    }

    /// The state after one clock phase.  After a fault the clock does not
    /// move on and nothing retires.
    pub open spec fn ticked(&self) -> CpuState {
        let a = self.advanced();
        match a.fault {
            Some(_) => CpuState { pipelines: a.pipelines, regs: a.regs, cp0: a.cp0, ..*self },
            None => CpuState {
                pipelines: retired(a.pipelines),
                regs: a.regs,
                cp0: a.cp0,
                pcycle_phase: vstd::wrapping::u64_specs::wrapping_add(self.pcycle_phase, 1),
                ..*self
            },
        }
    }
}

/// A cycle of each instruction keeps the number of instructions and their
/// well-formedness.
pub proof fn lemma_advance_keeps_wf(
    pipelines: Seq<Pipeline>,
    from: nat,
    regs: RegistersState,
    bus: BusState,
    cp0: Cp0State,
    prev: Option<RegistersUsed>,
)
    requires
        forall|i: int| 0 <= i < pipelines.len() ==> (#[trigger] pipelines[i]).wf(),
        prev matches Some(older) ==> older.valued(),
    ensures
        advance_from(pipelines, from, regs, bus, cp0, prev).pipelines.len() == pipelines.len(),
        forall|i: int|
            0 <= i < pipelines.len() ==> (#[trigger] advance_from(
                pipelines,
                from,
                regs,
                bus,
                cp0,
                prev,
            ).pipelines[i]).wf(),
    decreases pipelines.len() - from,
{
    if from < pipelines.len() {
        let pl = pipelines[from as int];
        match pl.cycle(regs, bus, cp0, prev) {
            Err(_) => {},
            Ok(c) => {
                crate::cpu::pipeline::lemma_cycle_keeps_wf(pl, regs, bus, cp0, prev);
                let next = pipelines.update(from as int, c.pipeline);
                assert forall|i: int| 0 <= i < next.len() implies (#[trigger] next[i]).wf() by {
                    if i != from as int {
                        assert(next[i] == pipelines[i]);
                    }
                }
                lemma_advance_keeps_wf(next, from + 1, c.regs, bus, c.cp0, c.pipeline.reg_used);
            },
        }
    }
}

/// A cycle of each instruction from position `from` on leaves the
/// instructions before that position as they are.
pub proof fn lemma_advance_keeps_older(
    pipelines: Seq<Pipeline>,
    from: nat,
    regs: RegistersState,
    bus: BusState,
    cp0: Cp0State,
    prev: Option<RegistersUsed>,
    k: int,
)
    requires
        0 <= k < from,
        k < pipelines.len(),
    ensures
        advance_from(pipelines, from, regs, bus, cp0, prev).pipelines.len() == pipelines.len(),
        advance_from(pipelines, from, regs, bus, cp0, prev).pipelines[k] == pipelines[k],
    decreases pipelines.len() - from,
{
    if from < pipelines.len() {
        match pipelines[from as int].cycle(regs, bus, cp0, prev) {
            Err(_) => {},
            Ok(c) => {
                lemma_advance_keeps_older(
                    pipelines.update(from as int, c.pipeline),
                    from + 1,
                    c.regs,
                    bus,
                    c.cp0,
                    c.pipeline.reg_used,
                    k,
                );
            },
        }
    }
}

/// The forwarding source of the instruction at position `k` in a clock
/// phase that starts at position `from` with source `prev` and leaves the
/// queue `after`: `prev` for the first instruction, else the hazard
/// record of the next older instruction as the phase left it.
pub open spec fn forwarding_source(
    after: Seq<Pipeline>,
    from: nat,
    prev: Option<RegistersUsed>,
    k: int,
) -> Option<RegistersUsed> {
    if k == from {
        prev
    } else {
        after[k - 1].reg_used
    }
}

/// Whether `after` is what a cycle of `before` leaves, with forwarding
/// source `source`, on the register file `regs` and the coprocessor `cp0`.
pub open spec fn cycle_leaves(
    before: Pipeline,
    regs: RegistersState,
    bus: BusState,
    cp0: Cp0State,
    source: Option<RegistersUsed>,
    after: Pipeline,
) -> bool {
    before.cycle(regs, bus, cp0, source) matches Ok(c) && c.pipeline == after
}

/// In a clock phase without a fault every instruction forwards from
/// exactly one other: the next older one, in the state that that one's
/// cycle of this same phase has left it in.  The oldest instruction
/// forwards from nothing, and no instruction further ahead is a
/// forwarding source.
pub proof fn lemma_forwarding_source(
    pipelines: Seq<Pipeline>,
    from: nat,
    regs: RegistersState,
    bus: BusState,
    cp0: Cp0State,
    prev: Option<RegistersUsed>,
    k: int,
)
    requires
        from <= k < pipelines.len(),
        advance_from(pipelines, from, regs, bus, cp0, prev).fault is None,
    ensures
        exists|r: RegistersState, c: Cp0State| #[trigger]
            cycle_leaves(
                pipelines[k],
                r,
                bus,
                c,
                forwarding_source(
                    advance_from(pipelines, from, regs, bus, cp0, prev).pipelines,
                    from,
                    prev,
                    k,
                ),
                advance_from(pipelines, from, regs, bus, cp0, prev).pipelines[k],
            ),
    decreases pipelines.len() - from,
{
    let after = advance_from(pipelines, from, regs, bus, cp0, prev).pipelines;
    let c = pipelines[from as int].cycle(regs, bus, cp0, prev).unwrap();
    let next = pipelines.update(from as int, c.pipeline);
    lemma_advance_keeps_older(next, from + 1, c.regs, bus, c.cp0, c.pipeline.reg_used, from as int);
    if k == from {
        assert(cycle_leaves(pipelines[k], regs, bus, cp0, prev, after[k]));
    } else {
        lemma_forwarding_source(next, from + 1, c.regs, bus, c.cp0, c.pipeline.reg_used, k);
        assert(next[k] == pipelines[k]);
        let source = forwarding_source(after, from + 1, c.pipeline.reg_used, k);
        assert(source == forwarding_source(after, from, prev, k));
        let (r, c2) = choose|r: RegistersState, c2: Cp0State| #[trigger]
            cycle_leaves(next[k], r, bus, c2, source, after[k]);
        assert(cycle_leaves(pipelines[k], r, bus, c2, source, after[k]));
    }
}

/// Retirement is first in, first out: at most the oldest instruction
/// leaves, and only once it is complete; every other instruction stays, in
/// order, whether complete or not.
pub proof fn lemma_retirement_in_order(pipelines: Seq<Pipeline>)
    ensures
        retired(pipelines) == pipelines || (pipelines.len() > 0 && pipelines[0].complete()
            && retired(pipelines) == pipelines.subrange(1, pipelines.len() as int)),
        pipelines.len() > 0 && !pipelines[0].complete() ==> retired(pipelines) == pipelines,
        forall|i: int|
            1 <= i < pipelines.len() && retired(pipelines) != pipelines ==> #[trigger] retired(
                pipelines,
            )[i - 1] == pipelines[i],
{
}

impl Cpu {
    /// A processor at reset: registers zero, the program counter at the
    /// reset vector, nothing in flight.
    pub fn new(bus: Bus) -> (cpu: Cpu)
        requires
            bus@.wf(),
        ensures
            cpu@.wf(),
            cpu@ == CpuState::reset(bus@),
    {
        let mut reg = Registers::default();
        reg.reg_pc = PIF_ROM_START;
        Cpu {
            reg: reg,
            cp0: CP0::default(),
            bus: bus,
            pipelines: VecDeque::with_capacity(5),
            pcycle_phase: 0,
        }
    }

    /// One clock phase: an instruction is admitted if there is room, each
    /// instruction in flight runs one cycle, oldest first, and the oldest
    /// retires if it is complete.  The first fault stops the phase and is
    /// returned.
    #[verifier::rlimit(40)]
    pub fn tick(&mut self) -> (r: Result<(), Fault>)
        requires
            old(self)@.wf(),
        ensures
            final(self)@.wf(),
            final(self)@ == old(self)@.ticked(),
            r == match old(self)@.tick_fault() {
                Some(f) => Err::<(), Fault>(f),
                None => Ok::<(), Fault>(()),
            },
    {
        self.setup_pipeline();
        let n: usize = self.pipelines.len();
        let ghost start = self@;
        let ghost target = advance_from(start.pipelines, 0, start.regs, start.bus, start.cp0, None);
        let ghost mut current = start.pipelines;
        let mut last_used: Option<RegistersUsed> = None;
        let mut fault: Option<Fault> = None;
        let mut i: usize = 0;
        proof {
            assert(self.pipelines@ =~= current.subrange(0, n as int) + current.subrange(0, 0));
        }
        while i < n
            invariant
                i <= n,
                n <= PIPELINE_LENGTH,
                current.len() == n,
                self.pipelines@ =~= current.subrange(i as int, n as int) + current.subrange(
                    0,
                    i as int,
                ),
                forall|j: int| 0 <= j < n ==> (#[trigger] current[j]).wf(),
                self.bus@ == start.bus,
                self.bus@.wf(),
                self.pcycle_phase == start.pcycle_phase,
                last_used matches Some(older) ==> older.valued(),
                fault is None ==> target == advance_from(
                    current,
                    i as nat,
                    self.reg@,
                    self.bus@,
                    self.cp0@,
                    last_used,
                ),
                fault matches Some(f) ==> target == (Advance {
                    pipelines: current,
                    regs: self.reg@,
                    cp0: self.cp0@,
                    fault: Some(f),
                }),
            decreases n - i,
        {
            let front = self.pipelines.pop_front();
            let mut pl = front.unwrap();
            assert(pl == current[i as int]);
            if fault.is_none() {
                match pl.run_cycle(&mut self.reg, &mut self.bus, &mut self.cp0, last_used) {
                    Ok(()) => {
                        last_used = pl.reg_used;
                        proof {
                            current = current.update(i as int, pl);
                        }
                    },
                    Err(f) => {
                        fault = Some(f);
                    },
                }
            }
            self.pipelines.push_back(pl);
            i = i + 1;
        }
        proof {
            assert(self.pipelines@ =~= current);
        }
        match fault {
            Some(f) => Err(f),
            None => {
                if self.end_tick() {
                    let _ = self.pipelines.pop_front();
                }
                self.pcycle_phase = self.pcycle_phase.wrapping_add(1);
                Ok(())
            },
        }
    }

    /// Puts the coprocessor's configuration and the program counter back
    /// to their power-on values.  Instructions in flight stay.
    pub fn power_on_reset(&mut self)
        ensures
            final(self)@ == (CpuState {
                regs: old(self)@.regs.with_pc(PIF_ROM_START),
                cp0: Cp0State {
                    reg_config: crate::cpu::cp0::reg_config::RegConfigState {
                        transfer_data_pattern: crate::cpu::cp0::reg_config::TransferDataPattern::D,
                        endianness: crate::cpu::cp0::reg_config::Endianness::BigEndian,
                        ..old(self)@.cp0.reg_config
                    },
                    ..old(self)@.cp0
                },
                ..old(self)@
            }),
    {
        self.cp0.power_on_reset();
        self.reg.reg_pc = PIF_ROM_START;
    }

    /// Runs up to `limit` clock phases and stops at the first fault, which
    /// is returned.
    pub fn run(&mut self, limit: u64) -> (r: Result<(), Fault>)
        requires
            old(self)@.wf(),
        ensures
            final(self)@.wf(),
            final(self)@ == old(self)@.run(limit as nat),
            r == match old(self)@.run_fault(limit as nat) {
                Some(f) => Err::<(), Fault>(f),
                None => Ok::<(), Fault>(()),
            },
    {
        let mut done: u64 = 0;
        while done < limit
            invariant
                done <= limit,
                self@.wf(),
                old(self)@.run(limit as nat) == self@.run((limit - done) as nat),
                old(self)@.run_fault(limit as nat) == self@.run_fault((limit - done) as nat),
            decreases limit - done,
        {
            match self.tick() {
                Ok(()) => {},
                Err(f) => {
                    return Err(f);
                },
            }
            done = done + 1;
        }
        Ok(())
    }

    /// Whether the oldest instruction in flight is complete, so that it
    /// retires at the end of this phase.
    pub fn end_tick(&mut self) -> (r: bool)
        ensures
            *final(self) == *old(self),
            r == (old(self)@.pipelines.len() > 0 && old(self)@.pipelines[0].complete()),
    {
        if self.pipelines.len() > 0 {
            self.pipelines[0].is_complete()
        } else {
            false
        }
    }

    /// Admits a fresh instruction at the back of the queue while fewer
    /// than `PIPELINE_LENGTH` are in flight.
    pub fn setup_pipeline(&mut self)
        ensures
            final(self)@ == (CpuState {
                pipelines: admitted(old(self)@.pipelines),
                ..old(self)@
            }),
            old(self)@.wf() ==> final(self)@.wf(),
    {
        if self.pipelines.len() < PIPELINE_LENGTH {
            self.pipelines.push_back(Pipeline::new());
        }
    }
}

} // verus!
