use vstd::prelude::*;
use crate::bus::{Bus, BusState};
use crate::cpu::cp0::cp0::{Cp0State, CP0};
use crate::cpu::instruction::{Instruction, INSTRUCTION_SIZE};
use crate::cpu::opcode::Opcode;
use crate::cpu::registers::{Registers, RegistersState, RegistersUsed};
use crate::cpu::virtual_address::VAddr;
use crate::fault::Fault;

verus! {

/// The stage of an instruction in flight, with the phase inside the
/// stage.  An instruction that has left writeback is complete.
#[derive(Clone, Copy, Debug, PartialEq, Eq, Structural)]
pub enum PipelineStage {
    IF(u8),
    RF(u8),
    EX(u8),
    DC(u8),
    WB(u8),
    COMPLETE(u8),
}

impl PipelineStage {
    /// The phase is 1 or 2 inside a stage and 0 once complete.
    pub open spec fn wf(&self) -> bool {
        match *self {
            PipelineStage::IF(p) | PipelineStage::RF(p) | PipelineStage::EX(p) | PipelineStage::DC(
                p,
            ) | PipelineStage::WB(p) => p == 1 || p == 2,
            PipelineStage::COMPLETE(p) => p == 0,
        }
    }

    /// The stage and phase that follow: phase 1 leads to phase 2 of the
    /// same stage, phase 2 to phase 1 of the next stage in the order
    /// fetch, register read, execute, data cache, writeback; writeback
    /// leads to completion, which is final.
    pub open spec fn following(&self) -> PipelineStage {
        match *self {
            PipelineStage::IF(p) => if p == 2 {
                PipelineStage::RF(1)
            } else {
                PipelineStage::IF(2)
            },
            PipelineStage::RF(p) => if p == 2 {
                PipelineStage::EX(1)
            } else {
                PipelineStage::RF(2)
            },
            PipelineStage::EX(p) => if p == 2 {
                PipelineStage::DC(1)
            } else {
                PipelineStage::EX(2)
            },
            PipelineStage::DC(p) => if p == 2 {
                PipelineStage::WB(1)
            } else {
                PipelineStage::DC(2)
            },
            PipelineStage::WB(p) => if p == 2 {
                PipelineStage::COMPLETE(0)
            } else {
                PipelineStage::WB(2)
            },
            PipelineStage::COMPLETE(_) => PipelineStage::COMPLETE(0),
        }
    }

    /// The number of cycles after which the instruction is complete.
    pub open spec fn remaining(&self) -> nat {
        match *self {
            PipelineStage::IF(p) => (11 - p) as nat,
            PipelineStage::RF(p) => (9 - p) as nat,
            PipelineStage::EX(p) => (7 - p) as nat,
            PipelineStage::DC(p) => (5 - p) as nat,
            PipelineStage::WB(p) => (3 - p) as nat,
            PipelineStage::COMPLETE(_) => 0,
        }
    }
}

/// What the execute stage leaves for later stages beside the hazard
/// record: a pending write to a coprocessor register and the address of a
/// memory access.
#[derive(Clone, Copy, Debug, PartialEq, Eq, Structural)]
pub struct DataWrite {
    pub cp0_data_register: Option<usize>,
    pub cp0_data_to_write: u64,
    pub vaddr: VAddr,
}

impl Default for DataWrite {
    fn default() -> (d: DataWrite)
        ensures
            d == DataWrite::nothing(),
    {
        DataWrite { cp0_data_register: None, cp0_data_to_write: 0, vaddr: VAddr(0) }
    }
}

impl DataWrite {
    /// Nothing pending.
    pub open spec fn nothing() -> DataWrite {
        DataWrite { cp0_data_register: None, cp0_data_to_write: 0, vaddr: VAddr(0) }
    }
}

/// One instruction in flight.
#[derive(Clone, Copy, Debug, PartialEq, Eq, Structural)]
pub struct Pipeline {
    pub stage: PipelineStage,
    /// Cycles for which the instruction still waits before its stage goes
    /// on.
    pub stalled: u64,
    pub instruction: Option<Instruction>,
    pub opcode: Option<Opcode>,
    pub output: DataWrite,
    pub reg_used: Option<RegistersUsed>,
}

/// The machine state that one cycle of one instruction leaves.
pub struct Cycle {
    pub pipeline: Pipeline,
    pub regs: RegistersState,
    pub cp0: Cp0State,
}

impl Pipeline {
    /// The state of a freshly admitted instruction.
    pub open spec fn fresh() -> Pipeline {
        Pipeline {
            stage: PipelineStage::IF(1),
            stalled: 0,
            instruction: None,
            opcode: None,
            output: DataWrite::nothing(),
            reg_used: None,
        }
    }

    /// The stage is well formed, and a hazard record, once there, is that
    /// of the resolved opcode's shape with a value for every register it
    /// names.
    pub open spec fn wf(&self) -> bool {
        &&& self.stage.wf()
        &&& match self.reg_used {
            Some(r) => r.ready() && match self.opcode {
                Some(op) => op.shape_of() == Some(r.rtype),
                None => false,
            },
            None => true,
        }
    }

    /// Whether the instruction has left the last stage.
    pub open spec fn complete(&self) -> bool {
        self.stage == PipelineStage::COMPLETE(0)
    }

    /// The pipeline moved on to the following stage and phase.
    pub open spec fn advanced(&self) -> Pipeline {
        Pipeline { stage: self.stage.following(), ..*self }
    }

    /// Fetch, phase 2: the word at the program counter is read through
    /// address translation and the bus, and the program counter moves on
    /// by one instruction, wrapping at 64 bits.
    pub open spec fn fetched(&self, regs: RegistersState, bus: BusState) -> Result<
        (Pipeline, RegistersState),
        Fault,
    > {
        match VAddr(regs.pc).translated() {
            Err(f) => Err(f),
            Ok(paddr) => match bus.read_result(paddr.0) {
                Err(f) => Err(f),
                Ok(word) => Ok(
                    (
                        Pipeline { instruction: Some(Instruction(word)), ..*self },
                        regs.with_pc(
                            vstd::wrapping::u64_specs::wrapping_add(regs.pc, INSTRUCTION_SIZE),
                        ),
                    ),
                ),
            },
        }
    }

    /// Register read, phase 2: the opcode is resolved and the hazard
    /// record is built and filled from the register file.  Without a
    /// fetched word nothing happens.
    pub open spec fn registers_read(&self, regs: RegistersState) -> Result<Pipeline, Fault> {
        match self.instruction {
            None => Ok(*self),
            Some(instr) => match instr.required_registers() {
                Err(f) => Err(f),
                Ok(record) => Ok(
                    Pipeline {
                        reg_used: Some(record.processed(regs)),
                        opcode: Some(instr.decoded().unwrap()),
                        ..*self
                    },
                ),
            },
        }
    }

    /// Execute, phase 1: the record takes over what the next older
    /// instruction forwards, then the opcode computes on it.  An opcode
    /// that the execute stage does not know is a decode fault.
    pub open spec fn executed(&self, prev: Option<RegistersUsed>) -> Result<Pipeline, Fault> {
        match (self.instruction, self.opcode, self.reg_used) {
            (Some(instr), Some(op), Some(record)) => {
                let operands = match prev {
                    Some(older) => record.forwarded(older),
                    None => record,
                };
                if !op.executes() {
                    Err(Fault::Decode { word: instr.0, opcode: op.code() })
                } else {
                    match op.executed(operands, instr.imm(), self.output) {
                        Err(f) => Err(f),
                        Ok((rec, out)) => Ok(
                            Pipeline { reg_used: Some(rec), output: out, ..*self },
                        ),
                    }
                }
            },
            _ => Ok(*self),
        }
    }

    /// The coprocessor state after writeback has committed the pending
    /// coprocessor write, if there is one.
    pub open spec fn cp0_committed(&self, cp0: Cp0State) -> Result<Cp0State, Fault> {
        match self.output.cp0_data_register {
            Some(index) => if index > 255 {
                Err(
                    Fault::UnsupportedOperation {
                        address: index as u64,
                        value: self.output.cp0_data_to_write,
                    },
                )
            } else {
                cp0.written(index as u8, self.output.cp0_data_to_write)
            },
            None => Ok(cp0),
        }
    }

    /// The register write that writeback commits: the output register and
    /// value of the hazard record, for an instruction that produces one.
    pub open spec fn gpr_commit(&self) -> Option<(usize, u64)> {
        match (self.opcode, self.reg_used) {
            (Some(op), Some(record)) => if op.produces_gpr() {
                match (record.output_register(), record.output_value()) {
                    (Some(reg), Some(value)) => Some((reg, value)),
                    _ => None,
                }
            } else {
                None
            },
            _ => None,
        }
    }

    /// The register file after writeback.
    pub open spec fn gpr_committed(&self, regs: RegistersState) -> RegistersState {
        match self.gpr_commit() {
            Some((reg, value)) => regs.written(reg as int, value),
            None => regs,
        }
    }

    /// The work of the current stage and phase, without the move to the
    /// next.  Only fetch 2, register read 2, execute 1 and writeback 1 do
    /// any.
    pub open spec fn stage_work(
        &self,
        regs: RegistersState,
        bus: BusState,
        cp0: Cp0State,
        prev: Option<RegistersUsed>,
    ) -> Result<Cycle, Fault> {
        match self.stage {
            PipelineStage::IF(2) => match self.fetched(regs, bus) {
                Ok((pipeline, after)) => Ok(Cycle { pipeline, regs: after, cp0 }),
                Err(f) => Err(f),
            },
            PipelineStage::RF(2) => match self.registers_read(regs) {
                Ok(pipeline) => Ok(Cycle { pipeline, regs, cp0 }),
                Err(f) => Err(f),
            },
            PipelineStage::EX(1) => match self.executed(prev) {
                Ok(pipeline) => Ok(Cycle { pipeline, regs, cp0 }),
                Err(f) => Err(f),
            },
            PipelineStage::WB(1) => match self.cp0_committed(cp0) {
                Ok(after) => Ok(
                    Cycle { pipeline: *self, regs: self.gpr_committed(regs), cp0: after },
                ),
                Err(f) => Err(f),
            },
            _ => Ok(Cycle { pipeline: *self, regs, cp0 }),
        }
    }

    /// One cycle: a stalled instruction only counts its stall down; any
    /// other does the work of its stage and phase and moves on to the
    /// next.
    pub open spec fn cycle(
        &self,
        regs: RegistersState,
        bus: BusState,
        cp0: Cp0State,
        prev: Option<RegistersUsed>,
    ) -> Result<Cycle, Fault> {
        if self.stalled > 0 {
            Ok(
                Cycle {
                    pipeline: Pipeline { stalled: (self.stalled - 1) as u64, ..*self },
                    regs,
                    cp0,
                },
            )
        } else {
            match self.stage_work(regs, bus, cp0, prev) {
                Ok(c) => Ok(Cycle { pipeline: c.pipeline.advanced(), ..c }),
                Err(f) => Err(f),
            }
        }
    }

    /// `n` cycles of the instruction with nothing older in flight.
    pub open spec fn alone(&self, n: nat, regs: RegistersState, bus: BusState, cp0: Cp0State)
        -> Result<Cycle, Fault>
        decreases n,
    {
        if n == 0 {
            Ok(Cycle { pipeline: *self, regs, cp0 })
        } else {
            match self.cycle(regs, bus, cp0, None) {
                Err(f) => Err(f),
                Ok(c) => c.pipeline.alone((n - 1) as nat, c.regs, bus, c.cp0),
            }
        }
    }

    /// A freshly admitted instruction: at fetch, phase 1, with nothing
    /// fetched or decoded.
    pub fn new() -> (pl: Pipeline)
        ensures
            pl == Pipeline::fresh(),
            pl.wf(),
    {
        Pipeline {
            stage: PipelineStage::IF(1),
            stalled: 0,
            instruction: None,
            opcode: None,
            output: DataWrite::default(),
            reg_used: None,
        }
    }

    /// Runs one cycle of the instruction.  `prev_reg` is the hazard record
    /// of the next older instruction in flight, the forwarding source.  A
    /// faulting cycle changes nothing.
    pub fn run_cycle(
        &mut self,
        reg: &mut Registers,
        bus: &mut Bus,
        cp0: &mut CP0,
        prev_reg: Option<RegistersUsed>,
    ) -> (r: Result<(), Fault>)
        requires
            old(self).wf(),
            old(bus)@.wf(),
            prev_reg matches Some(older) ==> older.valued(),
        ensures
            final(self).wf(),
            final(bus)@ == old(bus)@,
            match old(self).cycle(old(reg)@, old(bus)@, old(cp0)@, prev_reg) {
                Ok(c) => r is Ok && *final(self) == c.pipeline && final(reg)@ == c.regs
                    && final(cp0)@ == c.cp0,
                Err(f) => r == Err::<(), Fault>(f) && *final(self) == *old(self) && final(reg)@
                    == old(reg)@ && final(cp0)@ == old(cp0)@,
            },
    {
        if self.stalled > 0 {
            self.stalled = self.stalled - 1;
            return Ok(());
        }
        let worked = match self.stage {
            PipelineStage::IF(phase) => {
                if phase == 1 {
                    self.if_stage_phase1();
                    Ok(())
                } else {
                    self.if_stage_phase2(reg, bus)
                }
            },
            PipelineStage::RF(phase) => {
                if phase == 1 {
                    self.rf_stage_phase1();
                    Ok(())
                } else {
                    self.rf_stage_phase2(reg)
                }
            },
            PipelineStage::EX(phase) => {
                if phase == 1 {
                    self.ex_stage_phase1(prev_reg)
                } else {
                    self.ex_stage_phase2();
                    Ok(())
                }
            },
            PipelineStage::DC(phase) => {
                if phase == 1 {
                    self.dc_stage_phase1();
                } else {
                    self.dc_stage_phase2();
                }
                Ok(())
            },
            PipelineStage::WB(phase) => {
                if phase == 1 {
                    self.wb_stage_phase1(reg, cp0)
                } else {
                    self.wb_stage_phase2();
                    Ok(())
                }
            },
            PipelineStage::COMPLETE(_) => Ok(()),
        };
        match worked {
            Ok(()) => {
                self.next_stage();
                Ok(())
            },
            Err(f) => Err(f),
        }
    }

    fn if_stage_phase1(&self) {
    }

    fn if_stage_phase2(&mut self, reg: &mut Registers, bus: &Bus) -> (r: Result<(), Fault>)
        requires
            bus@.wf(),
        ensures
            match old(self).fetched(old(reg)@, bus@) {
                Ok((pipeline, after)) => r is Ok && *final(self) == pipeline && final(reg)@
                    == after,
                Err(f) => r == Err::<(), Fault>(f) && *final(self) == *old(self) && final(reg)@
                    == old(reg)@,
            },
    {
        let paddr = match VAddr(reg.reg_pc).to_paddr() {
            Ok(p) => p,
            Err(f) => {
                return Err(f);
            },
        };
        let word = match bus.read_word(paddr) {
            Ok(w) => w,
            Err(f) => {
                return Err(f);
            },
        };
        self.instruction = Some(Instruction(word));
        reg.reg_pc = reg.reg_pc.wrapping_add(INSTRUCTION_SIZE);
        Ok(())
    }

    fn rf_stage_phase1(&self) {
    }

    fn rf_stage_phase2(&mut self, reg: &Registers) -> (r: Result<(), Fault>)
        requires
            old(self).wf(),
        ensures
            match old(self).registers_read(reg@) {
                Ok(pipeline) => r is Ok && *final(self) == pipeline && pipeline.wf(),
                Err(f) => r == Err::<(), Fault>(f) && *final(self) == *old(self),
            },
            old(self).instruction is None ==> *final(self) == *old(self),
    {
        match self.instruction {
            Some(instr) => {
                let mut required_regs = match instr.get_required_registers() {
                    Ok(record) => record,
                    Err(f) => {
                        return Err(f);
                    },
                };
                required_regs.process(reg);
                let opcode = match instr.opcode() {
                    Ok(op) => op,
                    Err(f) => {
                        return Err(f);
                    },
                };
                proof {
                    crate::cpu::instruction::lemma_fields(instr.0);
                }
                self.reg_used = Some(required_regs);
                self.opcode = Some(opcode);
                Ok(())
            },
            None => Ok(()),
        }
    }

    fn ex_stage_phase1(&mut self, prev_reg: Option<RegistersUsed>) -> (r: Result<(), Fault>)
        requires
            old(self).wf(),
            prev_reg matches Some(older) ==> older.valued(),
        ensures
            match old(self).executed(prev_reg) {
                Ok(pipeline) => r is Ok && *final(self) == pipeline && pipeline.wf(),
                Err(f) => r == Err::<(), Fault>(f) && *final(self) == *old(self),
            },
    {
        match (self.instruction, self.opcode, self.reg_used) {
            (Some(instr), Some(opcode), Some(record)) => {
                let mut reg_values = record;
                match prev_reg {
                    Some(older) => {
                        reg_values.process_forwarding(older);
                    },
                    None => {},
                }
                if !opcode.is_executable() {
                    return Err(Fault::Decode { word: instr.0, opcode: opcode.flat_number() });
                }
                let imm_value = instr.immediate();
                let mut output = self.output;
                match opcode.ex_phase1(reg_values, imm_value, &mut output) {
                    Ok(updated) => {
                        self.reg_used = Some(updated);
                        self.output = output;
                        Ok(())
                    },
                    Err(f) => Err(f),
                }
            },
            _ => Ok(()),
        }
    }

    fn ex_stage_phase2(&self) {
    }

    fn dc_stage_phase1(&self) {
    }

    fn dc_stage_phase2(&self) {
    }

    fn wb_stage_phase1(&mut self, reg: &mut Registers, cp0: &mut CP0) -> (r: Result<(), Fault>)
        requires
            old(self).wf(),
        ensures
            *final(self) == *old(self),
            match old(self).cp0_committed(old(cp0)@) {
                Ok(after) => r is Ok && final(cp0)@ == after
                    && final(reg)@ == old(self).gpr_committed(old(reg)@),
                Err(f) => r == Err::<(), Fault>(f) && final(cp0)@ == old(cp0)@ && final(reg)@
                    == old(reg)@,
            },
    {
        match self.output.cp0_data_register {
            Some(index) => {
                if index > 255 {
                    return Err(
                        Fault::UnsupportedOperation {
                            address: index as u64,
                            value: self.output.cp0_data_to_write,
                        },
                    );
                }
                match cp0.write_reg(index as u8, self.output.cp0_data_to_write) {
                    Ok(()) => {},
                    Err(f) => {
                        return Err(f);
                    },
                }
            },
            None => {},
        }
        match (self.opcode, self.reg_used) {
            (Some(opcode), Some(values)) => {
                if opcode.writes_gpr() {
                    match (values.get_output_register(), values.get_output_value()) {
                        (Some(target), Some(v)) => {
                            reg.set_gpr_val(target, v);
                        },
                        _ => {},
                    }
                }
            },
            _ => {},
        }
        Ok(())
    }

    fn wb_stage_phase2(&self) {
    }

    fn next_stage(&mut self)
        requires
            old(self).stage.wf(),
        ensures
            *final(self) == old(self).advanced(),
            final(self).stage.wf(),
    {
        self.stage = match self.stage {
            PipelineStage::IF(phase) => {
                if phase == 2 {
                    PipelineStage::RF(1)
                } else {
                    PipelineStage::IF(phase + 1)
                }
            },
            PipelineStage::RF(phase) => {
                if phase == 2 {
                    PipelineStage::EX(1)
                } else {
                    PipelineStage::RF(phase + 1)
                }
            },
            PipelineStage::EX(phase) => {
                if phase == 2 {
                    PipelineStage::DC(1)
                } else {
                    PipelineStage::EX(phase + 1)
                }
            },
            PipelineStage::DC(phase) => {
                if phase == 2 {
                    PipelineStage::WB(1)
                } else {
                    PipelineStage::DC(phase + 1)
                }
            },
            PipelineStage::WB(phase) => {
                if phase == 2 {
                    PipelineStage::COMPLETE(0)
                } else {
                    PipelineStage::WB(phase + 1)
                }
            },
            PipelineStage::COMPLETE(_) => PipelineStage::COMPLETE(0),
        };
    }

    /// Whether the instruction has left the last stage and can retire.
    pub fn is_complete(&self) -> (r: bool)
        ensures
            r == self.complete(),
    {
        self.stage == PipelineStage::COMPLETE(0)
    }
}

/// An instruction that is not stalled is complete after the number of
/// cycles that its stage gives, and a complete instruction stays complete.
pub proof fn lemma_stage_order(stage: PipelineStage)
    requires
        stage.wf(),
    ensures
        stage.following().wf(),
        stage != PipelineStage::COMPLETE(0) ==> stage.following().remaining() + 1
            == stage.remaining(),
        stage == PipelineStage::COMPLETE(0) <==> stage.remaining() == 0,
        PipelineStage::COMPLETE(0).following() == PipelineStage::COMPLETE(0),
        PipelineStage::IF(1).remaining() == 10,
{
}

/// A stalled instruction does no stage work: its cycle only counts the
/// stall down, and the register file and the coprocessor stay as they
/// are.
pub proof fn lemma_stall_only_counts_down(
    pl: Pipeline,
    regs: RegistersState,
    bus: BusState,
    cp0: Cp0State,
    prev: Option<RegistersUsed>,
)
    requires
        pl.stalled > 0,
    ensures
        pl.cycle(regs, bus, cp0, prev) == Ok::<Cycle, Fault>(
            Cycle { pipeline: Pipeline { stalled: (pl.stalled - 1) as u64, ..pl }, regs, cp0 },
        ),
{
}

/// An instruction at the first execute phase that reads register `rs`
/// computes on the value that the next older instruction has published for
/// that register, whatever the register file holds: the register file is
/// no input of the execute stage.
pub proof fn lemma_execute_observes_forwarded(pl: Pipeline, older: RegistersUsed, value: u64)
    requires
        pl.wf(),
        pl.instruction is Some,
        pl.opcode == Some(Opcode::ORI),
        pl.reg_used is Some,
        older.output_register() is Some,
        older.output_register() == pl.reg_used.unwrap().rs,
        older.output_value() == Some(value),
    ensures
        pl.reg_used.unwrap().forwarded(older).rs_val == Some(value),
        pl.executed(Some(older)) == Ok::<Pipeline, Fault>(
            Pipeline {
                reg_used: Some(
                    pl.reg_used.unwrap().forwarded(older).holding_output(
                        (pl.instruction.unwrap().imm() as u64) | value,
                    ),
                ),
                ..pl
            },
        ),
{
}

/// A load-upper-immediate that runs alone from fetch to completion takes
/// ten cycles, leaves its immediate, shifted into the upper half of a
/// 32-bit word and sign-extended, in its target register, and moves the
/// program counter on by exactly one instruction.  Nothing else changes.
pub proof fn lemma_lui_alone(word: u32, regs: RegistersState, bus: BusState, cp0: Cp0State)
    requires
        VAddr(regs.pc).translated() is Ok,
        bus.read_result(VAddr(regs.pc).translated().unwrap().0) == Ok::<u32, Fault>(word),
        word >> 26 == 0b001111,
    ensures
        Pipeline::fresh().alone(10, regs, bus, cp0) matches Ok(c) && c.pipeline.complete()
            && c.cp0 == cp0 && c.regs == regs.with_pc(
            vstd::wrapping::u64_specs::wrapping_add(regs.pc, INSTRUCTION_SIZE),
        ).written(
            Instruction(word).rt() as int,
            Opcode::lui_value(Instruction(word).imm()),
        ),
{
    let instr = Instruction(word);
    crate::cpu::instruction::lemma_fields(word);
    crate::cpu::opcode::lemma_of_code_inverts_code(Opcode::LUI);
    assert(instr.primary() == 0b001111);
    assert(instr.flat_code() == 0b001111);
    assert(instr.decoded() == Ok::<Opcode, Fault>(Opcode::LUI));
    let pc4 = vstd::wrapping::u64_specs::wrapping_add(regs.pc, INSTRUCTION_SIZE);
    let r1 = regs.with_pc(pc4);
    let p0 = Pipeline::fresh();
    let c1 = p0.cycle(regs, bus, cp0, None).unwrap();
    assert(c1.pipeline == Pipeline { stage: PipelineStage::IF(2), ..p0 });
    let c2 = c1.pipeline.cycle(c1.regs, bus, c1.cp0, None).unwrap();
    assert(c2.pipeline == Pipeline {
        stage: PipelineStage::RF(1),
        instruction: Some(instr),
        ..p0
    });
    assert(c2.regs == r1);
    let c3 = c2.pipeline.cycle(c2.regs, bus, c2.cp0, None).unwrap();
    assert(c3.pipeline == Pipeline { stage: PipelineStage::RF(2), ..c2.pipeline });
    let record = instr.record_for(crate::cpu::opcode::Type::ITYPE).processed(r1);
    let c4 = c3.pipeline.cycle(c3.regs, bus, c3.cp0, None).unwrap();
    assert(c4.pipeline == Pipeline {
        stage: PipelineStage::EX(1),
        reg_used: Some(record),
        opcode: Some(Opcode::LUI),
        ..c3.pipeline
    });
    let done = record.holding_output(Opcode::lui_value(instr.imm()));
    let c5 = c4.pipeline.cycle(c4.regs, bus, c4.cp0, None).unwrap();
    assert(c5.pipeline == Pipeline {
        stage: PipelineStage::EX(2),
        reg_used: Some(done),
        ..c4.pipeline
    });
    let c6 = c5.pipeline.cycle(c5.regs, bus, c5.cp0, None).unwrap();
    assert(c6.pipeline == Pipeline { stage: PipelineStage::DC(1), ..c5.pipeline });
    let c7 = c6.pipeline.cycle(c6.regs, bus, c6.cp0, None).unwrap();
    assert(c7.pipeline == Pipeline { stage: PipelineStage::DC(2), ..c5.pipeline });
    let c8 = c7.pipeline.cycle(c7.regs, bus, c7.cp0, None).unwrap();
    assert(c8.pipeline == Pipeline { stage: PipelineStage::WB(1), ..c5.pipeline });
    assert(c8.regs == r1 && c8.cp0 == cp0);
    let c9 = c8.pipeline.cycle(c8.regs, bus, c8.cp0, None).unwrap();
    assert(c8.pipeline.gpr_commit() == Some((instr.rt(), Opcode::lui_value(instr.imm()))));
    assert(c9.pipeline == Pipeline { stage: PipelineStage::WB(2), ..c5.pipeline });
    assert(c9.regs == r1.written(instr.rt() as int, Opcode::lui_value(instr.imm())));
    let c10 = c9.pipeline.cycle(c9.regs, bus, c9.cp0, None).unwrap();
    assert(c10.pipeline == Pipeline { stage: PipelineStage::COMPLETE(0), ..c5.pipeline });
    reveal_with_fuel(Pipeline::alone, 11);
    assert(p0.alone(10, regs, bus, cp0) == Ok::<Cycle, Fault>(c10));
}

/// A cycle keeps an instruction well formed.
pub proof fn lemma_cycle_keeps_wf(
    pl: Pipeline,
    regs: RegistersState,
    bus: BusState,
    cp0: Cp0State,
    prev: Option<RegistersUsed>,
)
    requires
        pl.wf(),
        prev matches Some(older) ==> older.valued(),
    ensures
        pl.cycle(regs, bus, cp0, prev) matches Ok(c) ==> c.pipeline.wf(),
{
    if pl.stalled == 0 {
        match pl.stage {
            PipelineStage::RF(2) => {
                match pl.instruction {
                    Some(instr) => {
                        crate::cpu::instruction::lemma_fields(instr.0);
                    },
                    None => {},
                }
            },
            _ => {},
        }
    }
}

} // verus!
