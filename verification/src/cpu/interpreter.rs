use vstd::prelude::*;
use crate::cpu::cpu::{Cpu, CpuState};
use crate::cpu::instruction::{
    low_word, sign_extend_16, sign_extend_32, sign_extended_16, sign_extended_32, truncated_32,
    Instruction, INSTRUCTION_SIZE,
};
use crate::cpu::opcode::{Opcode, OpcodeBAL, OpcodeSpecial};
use crate::cpu::registers::RegistersState;
use crate::cpu::physical_address::PAddr;
use crate::cpu::virtual_address::{vaddr_to_paddr, VAddr};
use crate::fault::Fault;

verus! {

/// Whether an immediate operand is sign-extended or zero-extended.
#[derive(Clone, Copy, Debug, PartialEq, Eq, Structural)]
pub enum ExtendImmediate {
    Yes,
    No,
}

/// Whether a result is cut to 32 bits and sign-extended, or kept as it is.
#[derive(Clone, Copy, Debug, PartialEq, Eq, Structural)]
pub enum ExtendResult {
    Yes,
    No,
}

/// The operations on two registers.
#[derive(Clone, Copy, Debug, PartialEq, Eq, Structural)]
pub enum RegisterOperation {
    Or,
    And,
    Xor,
    Addu,
    Subu,
    Sltu,
}

/// The operations on a register and an immediate.
#[derive(Clone, Copy, Debug, PartialEq, Eq, Structural)]
pub enum ImmediateOperation {
    Addiu,
    Andi,
    Ori,
    Lui,
}

/// The shifts.  The variable ones take their amount from a register.
#[derive(Clone, Copy, Debug, PartialEq, Eq, Structural)]
pub enum ShiftOperation {
    Sll,
    Sllv,
    Srl,
    Srlv,
}

/// The conditions of the branches.  The linking branch carries the return
/// address that it leaves in register 31.
#[derive(Clone, Copy, Debug, PartialEq, Eq, Structural)]
pub enum BranchCondition {
    Equal,
    NotEqual,
    NotNegativeAndLink(u64),
}

/// Index of the register that a linking branch leaves its return address
/// in.
pub const LINK_REGISTER: usize = 31;

impl RegisterOperation {
    /// The result of the operation on the values of `rs` and `rt`.
    pub open spec fn apply(&self, rs: u64, rt: u64) -> u64 {
        match *self {
            RegisterOperation::Or => rs | rt,
            RegisterOperation::And => rs & rt,
            RegisterOperation::Xor => rs ^ rt,
            RegisterOperation::Addu => vstd::wrapping::u64_specs::wrapping_add(rs, rt),
            RegisterOperation::Subu => vstd::wrapping::u64_specs::wrapping_sub(rs, rt),
            RegisterOperation::Sltu => if rs < rt {
                1
            } else {
                0
            },
        }
    }

    /// Computes the operation.
    pub fn compute(&self, rs: u64, rt: u64) -> (r: u64)
        ensures
            r == self.apply(rs, rt),
    {
        match *self {
            RegisterOperation::Or => rs | rt,
            RegisterOperation::And => rs & rt,
            RegisterOperation::Xor => rs ^ rt,
            RegisterOperation::Addu => rs.wrapping_add(rt),
            RegisterOperation::Subu => rs.wrapping_sub(rt),
            RegisterOperation::Sltu => if rs < rt {
                1
            } else {
                0
            },
        }
    }
}

impl ImmediateOperation {
    /// The result of the operation on the value of `rs` and the extended
    /// immediate.
    pub open spec fn apply(&self, rs: u64, imm: u64) -> u64 {
        match *self {
            ImmediateOperation::Addiu => vstd::wrapping::u64_specs::wrapping_add(rs, imm),
            ImmediateOperation::Andi => rs & imm,
            ImmediateOperation::Ori => rs | imm,
            ImmediateOperation::Lui => sign_extend_32(low_word(imm << 16)),
        }
    }

    /// Computes the operation.
    pub fn compute(&self, rs: u64, imm: u64) -> (r: u64)
        ensures
            r == self.apply(rs, imm),
    {
        match *self {
            ImmediateOperation::Addiu => rs.wrapping_add(imm),
            ImmediateOperation::Andi => rs & imm,
            ImmediateOperation::Ori => rs | imm,
            ImmediateOperation::Lui => sign_extended_32(truncated_32(imm << 16)),
        }
    }
}

impl ShiftOperation {
    /// Whether the shift takes its amount from a register.
    pub open spec fn variable(&self) -> bool {
        *self == ShiftOperation::Sllv || *self == ShiftOperation::Srlv
    }

    /// The result of the shift of the value of `rt` by `amount` bits: a
    /// left shift of the 64-bit value, or a right shift of its low word.
    pub open spec fn apply(&self, rt: u64, amount: u64) -> u64 {
        match *self {
            ShiftOperation::Sll | ShiftOperation::Sllv => rt << amount,
            ShiftOperation::Srl | ShiftOperation::Srlv => (low_word(rt) >> amount) as u64,
        }
    }

    /// Whether the shift takes its amount from a register.
    pub fn is_variable(&self) -> (r: bool)
        ensures
            r == self.variable(),
    {
        match *self {
            ShiftOperation::Sllv | ShiftOperation::Srlv => true,
            _ => false,
        }
    }

    /// Computes the shift.
    pub fn compute(&self, rt: u64, amount: u64) -> (r: u64)
        requires
            amount < 32,
        ensures
            r == self.apply(rt, amount),
    {
        match *self {
            ShiftOperation::Sll | ShiftOperation::Sllv => rt << amount,
            ShiftOperation::Srl | ShiftOperation::Srlv => (truncated_32(rt) >> amount) as u64,
        }
    }
}

impl BranchCondition {
    /// Whether the branch is taken on the values of `rs` and `rt`.  The
    /// linking branch is taken when `rs`, read as a signed number, is not
    /// negative.
    pub open spec fn holds(&self, rs: u64, rt: u64) -> bool {
        match *self {
            BranchCondition::Equal => rs == rt,
            BranchCondition::NotEqual => rs != rt,
            BranchCondition::NotNegativeAndLink(_) => rs < 0x8000_0000_0000_0000,
        }
    }

    /// Decides the branch.
    pub fn decide(&self, rs: u64, rt: u64) -> (r: bool)
        ensures
            r == self.holds(rs, rt),
    {
        match *self {
            BranchCondition::Equal => rs == rt,
            BranchCondition::NotEqual => rs != rt,
            BranchCondition::NotNegativeAndLink(_) => rs < 0x8000_0000_0000_0000,
        }
    }
}

/// The immediate as the operation takes it.
pub open spec fn extend_immediate(ex: ExtendImmediate, imm: u16) -> u64 {
    match ex {
        ExtendImmediate::Yes => sign_extend_16(imm),
        ExtendImmediate::No => imm as u64,
    }
}

/// The result as the destination register takes it.
pub open spec fn extend_result(ex: ExtendResult, value: u64) -> u64 {
    match ex {
        ExtendResult::Yes => sign_extend_32(low_word(value)),
        ExtendResult::No => value,
    }
}

/// The address that a taken branch at program counter `pc` goes to: the
/// immediate, shifted left by two inside its sixteen bits and then
/// sign-extended, is added to the program counter, wrapping at 64 bits.
pub open spec fn branch_target(pc: u64, imm: u16) -> u64 {
    vstd::wrapping::u64_specs::wrapping_add(pc, sign_extend_16(imm << 2))
}

/// The address that a load or store names.
pub open spec fn memory_address(base: u64, imm: u16) -> u64 {
    vstd::wrapping::u64_specs::wrapping_add(base, sign_extend_16(imm))
}

/// Whether an addition of a register and an immediate overflows 32 bits:
/// both operands have the same bit 31 and the sum has the other.
pub open spec fn addi_overflows(rs: u64, imm: u64) -> bool {
    let res = vstd::wrapping::u64_specs::wrapping_add(rs, imm);
    let rs_positive = (rs >> 31) & 1 == 0;
    let imm_positive = (imm >> 31) & 1 == 0;
    let res_positive = (res >> 31) & 1 == 0;
    (rs_positive && imm_positive && !res_positive) || (!rs_positive && !imm_positive
        && res_positive)
}

/// The fault of an instruction in a delay slot that itself transfers
/// control, which would need a delay slot of its own.
pub open spec fn nested_transfer(pc: u64, target: u64) -> Fault {
    Fault::UnsupportedOperation { address: pc, value: target }
}

/// What one instruction does by itself: the state it leaves, and the
/// address it transfers control to once its delay slot has run, if it
/// transfers control.
pub struct Effect {
    pub state: CpuState,
    pub jump: Option<u64>,
}

/// An instruction that leaves `state` and goes on with the next one.
pub open spec fn stays(state: CpuState) -> Result<Effect, Fault> {
    Ok(Effect { state, jump: None })
}

impl CpuState {
    /// The value that general-purpose register `index` reads as.
    pub open spec fn gpr(&self, index: usize) -> u64 {
        self.regs.read(index as int)
    }

    /// The state after a write to a general-purpose register.
    pub open spec fn gpr_set(&self, index: usize, value: u64) -> CpuState {
        CpuState { regs: self.regs.written(index as int, value), ..*self }
    }

    /// The state with the program counter replaced.
    pub open spec fn pc_set(&self, pc: u64) -> CpuState {
        CpuState { regs: self.regs.with_pc(pc), ..*self }
    }

    /// Whether two states differ in the register file and the coprocessor
    /// at most.
    pub open spec fn same_outside_registers(&self, other: CpuState) -> bool {
        &&& self.bus == other.bus
        &&& self.pipelines == other.pipelines
        &&& self.pcycle_phase == other.pcycle_phase
    }

    /// The word at a virtual address, read through translation and the
    /// bus.
    pub open spec fn word_read(&self, vaddr: u64) -> Result<u32, Fault> {
        match VAddr(vaddr).translated() {
            Ok(paddr) => self.bus.read_result(paddr.0),
            Err(f) => Err(f),
        }
    }

    /// The state after a write of a word at a virtual address, through
    /// translation and the bus.
    pub open spec fn word_written(&self, vaddr: u64, value: u32) -> Result<CpuState, Fault> {
        match VAddr(vaddr).translated() {
            Ok(paddr) => match self.bus.write_result(paddr.0, value) {
                Ok(bus) => Ok(CpuState { bus, ..*self }),
                Err(f) => Err(f),
            },
            Err(f) => Err(f),
        }
    }

    /// The state after an operation on `rs` and `rt` into `rd`.
    pub open spec fn reg_operated(
        &self,
        instr: Instruction,
        ex: ExtendResult,
        op: RegisterOperation,
    ) -> CpuState {
        self.gpr_set(
            instr.rd(),
            extend_result(ex, op.apply(self.gpr(instr.rs()), self.gpr(instr.rt()))),
        )
    }

    /// The state after an operation on `rs` and the immediate into `rt`.
    pub open spec fn imm_operated(
        &self,
        instr: Instruction,
        ex: ExtendImmediate,
        op: ImmediateOperation,
    ) -> CpuState {
        self.gpr_set(
            instr.rt(),
            op.apply(self.gpr(instr.rs()), extend_immediate(ex, instr.imm())),
        )
    }

    /// The number of bits that a shift moves by: the shift amount field,
    /// or, for a variable shift, the low five bits of the register that
    /// the shift amount field names.
    pub open spec fn shift_amount_of(&self, instr: Instruction, op: ShiftOperation) -> u64 {
        if op.variable() {
            self.gpr(instr.sa() as usize) & 0x1F
        } else {
            instr.sa() as u64
        }
    }

    /// The state after a shift of `rt` into `rd`.
    pub open spec fn shift_operated(
        &self,
        instr: Instruction,
        ex: ExtendResult,
        op: ShiftOperation,
    ) -> CpuState {
        self.gpr_set(
            instr.rd(),
            extend_result(ex, op.apply(self.gpr(instr.rt()), self.shift_amount_of(instr, op))),
        )
    }

    /// The state after an unsigned multiplication of `rs` and `rt`: the
    /// low and the high word of the low 64 bits of the product go to `lo`
    /// and `hi`, each sign-extended.
    pub open spec fn multiplied(&self, instr: Instruction) -> CpuState {
        let res = vstd::wrapping::u64_specs::wrapping_mul(
            self.gpr(instr.rs()),
            self.gpr(instr.rt()),
        );
        CpuState {
            regs: RegistersState {
                lo: sign_extend_32(low_word(res)),
                hi: sign_extend_32(low_word(res >> 32)),
                ..self.regs
            },
            ..*self
        }
    }

    /// What a branch does by itself: a linking branch leaves its return
    /// address in register 31, taken or not, and a branch whose condition
    /// holds on the values that `rs` and `rt` had before transfers control
    /// to its target.
    pub open spec fn branch_effect(&self, instr: Instruction, condition: BranchCondition)
        -> Effect {
        Effect {
            state: match condition {
                BranchCondition::NotNegativeAndLink(link) => self.gpr_set(LINK_REGISTER, link),
                _ => *self,
            },
            jump: if condition.holds(self.gpr(instr.rs()), self.gpr(instr.rt())) {
                Some(branch_target(self.regs.pc, instr.imm()))
            } else {
                None
            },
        }
    }

    /// What a likely branch does by itself: as a branch, but when it is
    /// not taken the instruction in its delay slot is skipped.
    pub open spec fn branch_likely_effect(&self, instr: Instruction, condition: BranchCondition)
        -> Effect {
        let e = self.branch_effect(instr, condition);
        if e.jump is None {
            Effect {
                state: e.state.pc_set(
                    vstd::wrapping::u64_specs::wrapping_add(e.state.regs.pc, INSTRUCTION_SIZE),
                ),
                jump: None,
            }
        } else {
            e
        }
    }

    /// What an instruction of the ALU group does by itself.
    pub open spec fn special_effect(&self, instr: Instruction) -> Result<Effect, Fault> {
        match instr.decoded_special() {
            Err(f) => Err(f),
            Ok(op) => match op {
                OpcodeSpecial::SLL => stays(
                    self.shift_operated(instr, ExtendResult::Yes, ShiftOperation::Sll),
                ),
                OpcodeSpecial::SLLV => stays(
                    self.shift_operated(instr, ExtendResult::Yes, ShiftOperation::Sllv),
                ),
                OpcodeSpecial::SRL => stays(
                    self.shift_operated(instr, ExtendResult::Yes, ShiftOperation::Srl),
                ),
                OpcodeSpecial::SRLV => stays(
                    self.shift_operated(instr, ExtendResult::Yes, ShiftOperation::Srlv),
                ),
                OpcodeSpecial::OR => stays(
                    self.reg_operated(instr, ExtendResult::No, RegisterOperation::Or),
                ),
                OpcodeSpecial::AND => stays(
                    self.reg_operated(instr, ExtendResult::No, RegisterOperation::And),
                ),
                OpcodeSpecial::XOR => stays(
                    self.reg_operated(instr, ExtendResult::No, RegisterOperation::Xor),
                ),
                OpcodeSpecial::MFHI => stays(self.gpr_set(instr.rd(), self.regs.hi)),
                OpcodeSpecial::MFLO => stays(self.gpr_set(instr.rd(), self.regs.lo)),
                OpcodeSpecial::MULTU => stays(self.multiplied(instr)),
                OpcodeSpecial::ADDU => stays(
                    self.reg_operated(instr, ExtendResult::Yes, RegisterOperation::Addu),
                ),
                OpcodeSpecial::SUBU => stays(
                    self.reg_operated(instr, ExtendResult::Yes, RegisterOperation::Subu),
                ),
                OpcodeSpecial::JR => if self.gpr(instr.rs()) & 0b11 != 0 {
                    Err(Fault::Address { address: self.gpr(instr.rs()) })
                } else {
                    Ok(Effect { state: *self, jump: Some(self.gpr(instr.rs())) })
                },
                OpcodeSpecial::SLTU => stays(
                    self.reg_operated(instr, ExtendResult::No, RegisterOperation::Sltu),
                ),
            },
        }
    }

    /// What an instruction of the branch group does by itself.
    pub open spec fn regimm_effect(&self, instr: Instruction) -> Result<Effect, Fault> {
        match instr.decoded_bal() {
            Err(f) => Err(f),
            Ok(OpcodeBAL::BGEZAL) => Ok(
                self.branch_effect(
                    instr,
                    BranchCondition::NotNegativeAndLink(
                        vstd::wrapping::u64_specs::wrapping_add(self.regs.pc, 4),
                    ),
                ),
            ),
        }
    }

    /// What an add-immediate does by itself: the sum of `rs` and the
    /// sign-extended immediate goes to `rt`, unless the addition overflows
    /// 32 bits, which raises an exception that is not modelled.
    pub open spec fn addi_effect(&self, instr: Instruction) -> Result<Effect, Fault> {
        let rs_val = self.gpr(instr.rs());
        let imm = sign_extend_16(instr.imm());
        let res = vstd::wrapping::u64_specs::wrapping_add(rs_val, imm);
        if addi_overflows(rs_val, imm) {
            Err(Fault::UnsupportedOperation { address: instr.0 as u64, value: res })
        } else {
            stays(self.gpr_set(instr.rt(), res))
        }
    }

    /// What a load word does by itself: the word at the address, which
    /// must be word aligned, goes to `rt`, sign-extended.
    pub open spec fn load_effect(&self, instr: Instruction) -> Result<Effect, Fault> {
        let vaddr = memory_address(self.gpr(instr.rs()), instr.imm());
        if vaddr & 0b11 != 0 {
            Err(Fault::Address { address: vaddr })
        } else {
            match self.word_read(vaddr) {
                Ok(word) => stays(self.gpr_set(instr.rt(), sign_extend_32(word))),
                Err(f) => Err(f),
            }
        }
    }

    /// What a store word does by itself: the low word of `rt` goes to the
    /// address, which must be word aligned.
    pub open spec fn store_effect(&self, instr: Instruction) -> Result<Effect, Fault> {
        let vaddr = memory_address(self.gpr(instr.rs()), instr.imm());
        if vaddr & 0b11 != 0 {
            Err(Fault::Address { address: vaddr })
        } else {
            match self.word_written(vaddr, low_word(self.gpr(instr.rt()))) {
                Ok(state) => stays(state),
                Err(f) => Err(f),
            }
        }
    }

    /// What a move to the system control coprocessor does by itself: the
    /// value of `rt` goes to the coprocessor register that `rd` names.
    pub open spec fn mtc0_effect(&self, instr: Instruction) -> Result<Effect, Fault> {
        match self.cp0.written(instr.rd() as u8, self.gpr(instr.rt())) {
            Ok(cp0) => stays(CpuState { cp0, ..*self }),
            Err(f) => Err(f),
        }
    }

    /// What an instruction does by itself, whatever its group.  An
    /// instruction of the coprocessor group must resolve to the move to
    /// the coprocessor.
    pub open spec fn effect(&self, instr: Instruction) -> Result<Effect, Fault> {
        match instr.decoded_primary() {
            Err(f) => Err(f),
            Ok(op) => match op {
                Opcode::SPECIAL => self.special_effect(instr),
                Opcode::REGIMM => self.regimm_effect(instr),
                Opcode::COPROC => match instr.decoded() {
                    Err(f) => Err(f),
                    Ok(_) => self.mtc0_effect(instr),
                },
                Opcode::ADDI => self.addi_effect(instr),
                Opcode::ADDIU => stays(
                    self.imm_operated(instr, ExtendImmediate::Yes, ImmediateOperation::Addiu),
                ),
                Opcode::ANDI => stays(
                    self.imm_operated(instr, ExtendImmediate::No, ImmediateOperation::Andi),
                ),
                Opcode::ORI => stays(
                    self.imm_operated(instr, ExtendImmediate::No, ImmediateOperation::Ori),
                ),
                Opcode::LUI => stays(
                    self.imm_operated(instr, ExtendImmediate::No, ImmediateOperation::Lui),
                ),
                Opcode::BEQ => Ok(self.branch_effect(instr, BranchCondition::Equal)),
                Opcode::BEQL => Ok(self.branch_likely_effect(instr, BranchCondition::Equal)),
                Opcode::BNE => Ok(self.branch_effect(instr, BranchCondition::NotEqual)),
                Opcode::BNEL => Ok(self.branch_likely_effect(instr, BranchCondition::NotEqual)),
                Opcode::LW => self.load_effect(instr),
                Opcode::SW => self.store_effect(instr),
                Opcode::MTC0 => Err(Fault::Decode { word: instr.0, opcode: instr.primary() }),
            },
        }
    }

    /// The state after an instruction in a delay slot.  Such an
    /// instruction may not transfer control itself.
    pub open spec fn in_delay_slot(&self, instr: Instruction) -> Result<CpuState, Fault> {
        match self.effect(instr) {
            Err(f) => Err(f),
            Ok(e) => match e.jump {
                None => Ok(e.state),
                Some(target) => Err(nested_transfer(e.state.regs.pc, target)),
            },
        }
    }

    /// The state after a transfer of control to `target`: the instruction
    /// in the delay slot, at the program counter, runs with the program
    /// counter already at the target.
    pub open spec fn jumped(&self, target: u64) -> Result<CpuState, Fault> {
        match self.word_read(self.regs.pc) {
            Err(f) => Err(f),
            Ok(word) => self.pc_set(target).in_delay_slot(Instruction(word)),
        }
    }

    /// The state that an effect leads to, inside a delay slot or outside.
    pub open spec fn resolved(e: Result<Effect, Fault>, in_delay_slot: bool) -> Result<
        CpuState,
        Fault,
    > {
        match e {
            Err(f) => Err(f),
            Ok(e) => match e.jump {
                None => Ok(e.state),
                Some(target) => if in_delay_slot {
                    Err(nested_transfer(e.state.regs.pc, target))
                } else {
                    e.state.jumped(target)
                },
            },
        }
    }

    /// The state after an instruction with its delay slot, if it has one.
    pub open spec fn executed(&self, instr: Instruction) -> Result<CpuState, Fault> {
        CpuState::resolved(self.effect(instr), false)
    }

    /// The state after the instruction at the program counter, run as a
    /// whole and outside the pipeline: the program counter moves on by one
    /// instruction, then the instruction executes.
    pub open spec fn stepped(&self) -> Result<CpuState, Fault> {
        match self.word_read(self.regs.pc) {
            Err(f) => Err(f),
            Ok(word) => self.pc_set(
                vstd::wrapping::u64_specs::wrapping_add(self.regs.pc, INSTRUCTION_SIZE),
            ).executed(Instruction(word)),
        }
    }
}

/// A load-upper-immediate run as a whole leaves what it leaves when it
/// runs through the pipeline alone: its immediate, shifted into the upper
/// half of a 32-bit word and sign-extended, in its target register, and
/// the program counter one instruction on.
pub proof fn lemma_lui_stepped(s: CpuState, word: u32)
    requires
        s.word_read(s.regs.pc) == Ok::<u32, Fault>(word),
        word >> 26 == 0b001111,
    ensures
        s.stepped() == Ok::<CpuState, Fault>(
            s.pc_set(
                vstd::wrapping::u64_specs::wrapping_add(s.regs.pc, INSTRUCTION_SIZE),
            ).gpr_set(Instruction(word).rt(), Opcode::lui_value(Instruction(word).imm())),
        ),
{
    let instr = Instruction(word);
    crate::cpu::instruction::lemma_fields(word);
    crate::cpu::opcode::lemma_of_code_inverts_code(Opcode::LUI);
    assert(instr.decoded_primary() == Ok::<Opcode, Fault>(Opcode::LUI));
    let imm = instr.imm();
    assert(sign_extend_32(low_word((imm as u64) << 16)) == sign_extend_32((imm as u32) << 16))
        by (bit_vector);
}

/// Register 0 reads as zero in every state, so no instruction changes what
/// it reads as.
pub proof fn lemma_register_zero(s: CpuState, index: usize, value: u64)
    ensures
        s.gpr(0) == 0,
        s.gpr_set(index, value).gpr(0) == 0,
        s.gpr_set(0, value) == s,
{
}

impl Cpu {
    /// Runs the instruction at the program counter as a whole, outside the
    /// pipeline, together with the instruction in its delay slot if it
    /// transfers control.  A faulting instruction changes nothing.
    pub fn run_instruction(&mut self) -> (r: Result<(), Fault>)
        requires
            old(self)@.bus.wf(),
        ensures
            final(self)@.bus.wf(),
            match old(self)@.stepped() {
                Ok(after) => r is Ok && final(self)@ == after,
                Err(f) => r == Err::<(), Fault>(f) && final(self)@ == old(self)@,
            },
    {
        let saved_reg = self.reg;
        let saved_cp0 = self.cp0;
        let instruction = match self.read_instruction(self.reg.reg_pc) {
            Ok(i) => i,
            Err(f) => {
                return Err(f);
            },
        };
        let new_pc = self.reg.reg_pc.wrapping_add(INSTRUCTION_SIZE);
        let _ = self.change_pc(new_pc, false, false);
        match self.execute_instruction(instruction, false) {
            Ok(()) => Ok(()),
            Err(f) => {
                self.reg = saved_reg;
                self.cp0 = saved_cp0;
                Err(f)
            },
        }
    }

    fn reg_operand(&mut self, instruction: Instruction, ex: ExtendResult, op: RegisterOperation)
        ensures
            final(self)@ == old(self)@.reg_operated(instruction, ex, op),
    {
        let rs_val = self.read_gpr(instruction.source());
        let rt_val = self.read_gpr(instruction.target_register());
        let value = op.compute(rs_val, rt_val);
        self.write_gpr(
            instruction.destination(),
            match ex {
                ExtendResult::Yes => sign_extended_32(truncated_32(value)),
                ExtendResult::No => value,
            },
        );
    }

    fn imm_operand(&mut self, instruction: Instruction, ex: ExtendImmediate, op: ImmediateOperation)
        ensures
            final(self)@ == old(self)@.imm_operated(instruction, ex, op),
    {
        let rs_val = self.read_gpr(instruction.source());
        let imm = match ex {
            ExtendImmediate::Yes => instruction.immediate_extend(),
            ExtendImmediate::No => instruction.immediate() as u64,
        };
        let value = op.compute(rs_val, imm);
        self.write_gpr(instruction.target_immediate(), value);
    }

    fn shift_operand(&mut self, instruction: Instruction, ex: ExtendResult, op: ShiftOperation)
        ensures
            final(self)@ == old(self)@.shift_operated(instruction, ex, op),
    {
        let rt_val = self.read_gpr(instruction.target_register());
        let shift = instruction.shift_amount();
        let amount: u64 = if op.is_variable() {
            let from_register = self.read_gpr(shift as usize);
            assert(from_register & 0x1F < 32) by (bit_vector);
            from_register & 0x1F
        } else {
            shift as u64
        };
        let value = op.compute(rt_val, amount);
        self.write_gpr(
            instruction.destination(),
            match ex {
                ExtendResult::Yes => sign_extended_32(truncated_32(value)),
                ExtendResult::No => value,
            },
        );
    }

    #[verifier::rlimit(40)]
    fn execute_special(&mut self, instruction: Instruction, in_delay_slot: bool) -> (r: Result<
        (),
        Fault,
    >)
        requires
            old(self)@.bus.wf(),
        ensures
            final(self)@.bus.wf(),
            match CpuState::resolved(old(self)@.special_effect(instruction), in_delay_slot) {
                Ok(after) => r is Ok && final(self)@ == after,
                Err(f) => r == Err::<(), Fault>(f) && final(self)@.same_outside_registers(
                    old(self)@,
                ),
            },
        decreases
                (if in_delay_slot {
                    0nat
                } else {
                    1nat
                }),
                2nat,
    {
        let op = match instruction.opcode_special() {
            Ok(op) => op,
            Err(f) => {
                return Err(f);
            },
        };
        match op {
            OpcodeSpecial::SLL => {
                self.shift_operand(instruction, ExtendResult::Yes, ShiftOperation::Sll);
            },
            OpcodeSpecial::SLLV => {
                self.shift_operand(instruction, ExtendResult::Yes, ShiftOperation::Sllv);
            },
            OpcodeSpecial::SRL => {
                self.shift_operand(instruction, ExtendResult::Yes, ShiftOperation::Srl);
            },
            OpcodeSpecial::SRLV => {
                self.shift_operand(instruction, ExtendResult::Yes, ShiftOperation::Srlv);
            },
            OpcodeSpecial::OR => {
                self.reg_operand(instruction, ExtendResult::No, RegisterOperation::Or);
            },
            OpcodeSpecial::AND => {
                self.reg_operand(instruction, ExtendResult::No, RegisterOperation::And);
            },
            OpcodeSpecial::XOR => {
                self.reg_operand(instruction, ExtendResult::No, RegisterOperation::Xor);
            },
            OpcodeSpecial::MFHI => {
                let hi = self.reg.reg_hi;
                self.write_gpr(instruction.destination(), hi);
            },
            OpcodeSpecial::MFLO => {
                let lo = self.reg.reg_lo;
                self.write_gpr(instruction.destination(), lo);
            },
            OpcodeSpecial::MULTU => {
                let rs_val = self.read_gpr(instruction.source());
                let rt_val = self.read_gpr(instruction.target_register());
                let res = rs_val.wrapping_mul(rt_val);
                self.reg.reg_lo = sign_extended_32(truncated_32(res));
                self.reg.reg_hi = sign_extended_32(truncated_32(res >> 32));
            },
            OpcodeSpecial::ADDU => {
                self.reg_operand(instruction, ExtendResult::Yes, RegisterOperation::Addu);
            },
            OpcodeSpecial::SUBU => {
                self.reg_operand(instruction, ExtendResult::Yes, RegisterOperation::Subu);
            },
            OpcodeSpecial::JR => {
                let new_pc = self.read_gpr(instruction.source());
                if new_pc & 0b11 != 0 {
                    return Err(Fault::Address { address: new_pc });
                }
                return self.change_pc(new_pc, true, in_delay_slot);
            },
            OpcodeSpecial::SLTU => {
                self.reg_operand(instruction, ExtendResult::No, RegisterOperation::Sltu);
            },
        }
        Ok(())
    }

    fn execute_regimm(&mut self, instruction: Instruction, in_delay_slot: bool) -> (r: Result<
        (),
        Fault,
    >)
        requires
            old(self)@.bus.wf(),
        ensures
            final(self)@.bus.wf(),
            match CpuState::resolved(old(self)@.regimm_effect(instruction), in_delay_slot) {
                Ok(after) => r is Ok && final(self)@ == after,
                Err(f) => r == Err::<(), Fault>(f) && final(self)@.same_outside_registers(
                    old(self)@,
                ),
            },
        decreases
                (if in_delay_slot {
                    0nat
                } else {
                    1nat
                }),
                2nat,
    {
        match instruction.opcode_bal() {
            Err(f) => Err(f),
            Ok(OpcodeBAL::BGEZAL) => {
                let r31val = self.reg.reg_pc.wrapping_add(4);
                match self.branch(
                    instruction,
                    BranchCondition::NotNegativeAndLink(r31val),
                    in_delay_slot,
                ) {
                    Ok(_) => Ok(()),
                    Err(f) => Err(f),
                }
            },
        }
    }

    #[verifier::rlimit(40)]
    fn execute_instruction(&mut self, instruction: Instruction, in_delay_slot: bool) -> (r:
        Result<(), Fault>)
        requires
            old(self)@.bus.wf(),
        ensures
            final(self)@.bus.wf(),
            match CpuState::resolved(old(self)@.effect(instruction), in_delay_slot) {
                Ok(after) => r is Ok && final(self)@ == after,
                Err(f) => r == Err::<(), Fault>(f) && final(self)@.same_outside_registers(
                    old(self)@,
                ),
            },
        decreases
                (if in_delay_slot {
                    0nat
                } else {
                    1nat
                }),
                3nat,
    {
        let opcode = match instruction.opcode_primary() {
            Ok(op) => op,
            Err(f) => {
                return Err(f);
            },
        };
        match opcode {
            Opcode::SPECIAL => self.execute_special(instruction, in_delay_slot),
            Opcode::REGIMM => self.execute_regimm(instruction, in_delay_slot),
            Opcode::COPROC => {
                match instruction.opcode() {
                    Err(f) => Err(f),
                    Ok(_) => {
                        let rt = instruction.target_register();
                        let rd = instruction.destination();
                        let data = self.read_gpr(rt);
                        self.cp0.write_reg(rd as u8, data)
                    },
                }
            },
            Opcode::ADDI => {
                let rs_val = self.read_gpr(instruction.source());
                let imm = instruction.immediate_extend();
                let rs_positive = (rs_val >> 31) & 1 == 0;
                let imm_positive = (imm >> 31) & 1 == 0;
                let res = rs_val.wrapping_add(imm);
                let res_positive = (res >> 31) & 1 == 0;
                if (rs_positive && imm_positive && !res_positive) || (!rs_positive
                    && !imm_positive && res_positive) {
                    return Err(
                        Fault::UnsupportedOperation { address: instruction.0 as u64, value: res },
                    );
                }
                self.write_gpr(instruction.target_immediate(), res);
                Ok(())
            },
            Opcode::ADDIU => {
                self.imm_operand(instruction, ExtendImmediate::Yes, ImmediateOperation::Addiu);
                Ok(())
            },
            Opcode::ANDI => {
                self.imm_operand(instruction, ExtendImmediate::No, ImmediateOperation::Andi);
                Ok(())
            },
            Opcode::ORI => {
                self.imm_operand(instruction, ExtendImmediate::No, ImmediateOperation::Ori);
                Ok(())
            },
            Opcode::LUI => {
                self.imm_operand(instruction, ExtendImmediate::No, ImmediateOperation::Lui);
                Ok(())
            },
            Opcode::BEQ => {
                match self.branch(instruction, BranchCondition::Equal, in_delay_slot) {
                    Ok(_) => Ok(()),
                    Err(f) => Err(f),
                }
            },
            Opcode::BEQL => self.branch_likely(instruction, BranchCondition::Equal, in_delay_slot),
            Opcode::BNE => {
                match self.branch(instruction, BranchCondition::NotEqual, in_delay_slot) {
                    Ok(_) => Ok(()),
                    Err(f) => Err(f),
                }
            },
            Opcode::BNEL => self.branch_likely(
                instruction,
                BranchCondition::NotEqual,
                in_delay_slot,
            ),
            Opcode::LW => {
                let base = self.read_gpr(instruction.source());
                let vaddr = base.wrapping_add(sign_extended_16(instruction.immediate()));
                if vaddr & 0b11 != 0 {
                    return Err(Fault::Address { address: vaddr });
                }
                let word = match self.read_word(vaddr) {
                    Ok(w) => w,
                    Err(f) => {
                        return Err(f);
                    },
                };
                let mem = sign_extended_32(word);
                self.write_gpr(instruction.target_immediate(), mem);
                Ok(())
            },
            Opcode::SW => {
                let base = self.read_gpr(instruction.source());
                let vaddr = base.wrapping_add(sign_extended_16(instruction.immediate()));
                if vaddr & 0b11 != 0 {
                    return Err(Fault::Address { address: vaddr });
                }
                let value = truncated_32(self.read_gpr(instruction.target_immediate()));
                self.write_word(vaddr, value)
            },
            Opcode::MTC0 => {
                proof {
                    crate::cpu::instruction::lemma_fields(instruction.0);
                }
                Err(Fault::Decode { word: instruction.0, opcode: opcode.flat_number() })
            },
        }
    }

    fn change_pc(&mut self, new_address: u64, with_delay: bool, in_delay_slot: bool) -> (r:
        Result<(), Fault>)
        requires
            old(self)@.bus.wf(),
        ensures
            final(self)@.bus.wf(),
            !with_delay ==> r is Ok && final(self)@ == old(self)@.pc_set(new_address),
            with_delay ==> match CpuState::resolved(
                Ok(Effect { state: old(self)@, jump: Some(new_address) }),
                in_delay_slot,
            ) {
                Ok(after) => r is Ok && final(self)@ == after,
                Err(f) => r == Err::<(), Fault>(f) && final(self)@.same_outside_registers(
                    old(self)@,
                ),
            },
        decreases
                (if in_delay_slot {
                    0nat
                } else {
                    1nat
                }),
                0nat,
    {
        if !with_delay {
            self.reg.reg_pc = new_address;
            return Ok(());
        }
        if in_delay_slot {
            return Err(Fault::UnsupportedOperation { address: self.reg.reg_pc, value: new_address });
        }
        let delay_slot_pc = self.reg.reg_pc;
        let delay_instuction = match self.read_instruction(delay_slot_pc) {
            Ok(i) => i,
            Err(f) => {
                return Err(f);
            },
        };
        self.reg.reg_pc = new_address;
        self.execute_instruction(delay_instuction, true)
    }

    fn branch_likely(
        &mut self,
        instruction: Instruction,
        condition: BranchCondition,
        in_delay_slot: bool,
    ) -> (r: Result<(), Fault>)
        requires
            old(self)@.bus.wf(),
        ensures
            final(self)@.bus.wf(),
            match CpuState::resolved(
                Ok(old(self)@.branch_likely_effect(instruction, condition)),
                in_delay_slot,
            ) {
                Ok(after) => r is Ok && final(self)@ == after,
                Err(f) => r == Err::<(), Fault>(f) && final(self)@.same_outside_registers(
                    old(self)@,
                ),
            },
        decreases
                (if in_delay_slot {
                    0nat
                } else {
                    1nat
                }),
                2nat,
    {
        match self.branch(instruction, condition, in_delay_slot) {
            Err(f) => Err(f),
            Ok(taken) => {
                if !taken {
                    self.reg.reg_pc = self.reg.reg_pc.wrapping_add(INSTRUCTION_SIZE);
                }
                Ok(())
            },
        }
    }

    fn branch(&mut self, instruction: Instruction, condition: BranchCondition, in_delay_slot: bool)
        -> (r: Result<bool, Fault>)
        requires
            old(self)@.bus.wf(),
        ensures
            final(self)@.bus.wf(),
            match CpuState::resolved(
                Ok(old(self)@.branch_effect(instruction, condition)),
                in_delay_slot,
            ) {
                Ok(after) => r == Ok::<bool, Fault>(
                    old(self)@.branch_effect(instruction, condition).jump is Some,
                ) && final(self)@ == after,
                Err(f) => r == Err::<bool, Fault>(f) && final(self)@.same_outside_registers(
                    old(self)@,
                ),
            },
        decreases
                (if in_delay_slot {
                    0nat
                } else {
                    1nat
                }),
                1nat,
    {
        let rs = self.read_gpr(instruction.source());
        let rt = self.read_gpr(instruction.target_immediate());
        match condition {
            BranchCondition::NotNegativeAndLink(link) => {
                self.write_gpr(LINK_REGISTER, link);
            },
            _ => {},
        }
        let branch = condition.decide(rs, rt);
        if branch {
            let new_pc = self.reg.reg_pc.wrapping_add(
                sign_extended_16(instruction.immediate() << 2),
            );
            match self.change_pc(new_pc, true, in_delay_slot) {
                Ok(()) => {},
                Err(f) => {
                    return Err(f);
                },
            }
        }
        Ok(branch)
    }

    fn read_word(&self, addr: u64) -> (r: Result<u32, Fault>)
        requires
            self@.bus.wf(),
        ensures
            r == self@.word_read(addr),
    {
        match vaddr_to_paddr(addr) {
            Ok(paddr) => self.bus.read_word(PAddr(paddr as u32)),
            Err(f) => Err(f),
        }
    }

    fn write_word(&mut self, addr: u64, value: u32) -> (r: Result<(), Fault>)
        requires
            old(self)@.bus.wf(),
        ensures
            final(self)@.bus.wf(),
            match old(self)@.word_written(addr, value) {
                Ok(after) => r is Ok && final(self)@ == after,
                Err(f) => r == Err::<(), Fault>(f) && final(self)@ == old(self)@,
            },
    {
        match vaddr_to_paddr(addr) {
            Ok(paddr) => self.bus.write_word(PAddr(paddr as u32), value),
            Err(f) => Err(f),
        }
    }

    fn read_instruction(&self, addr: u64) -> (r: Result<Instruction, Fault>)
        requires
            self@.bus.wf(),
        ensures
            r == match self@.word_read(addr) {
                Ok(word) => Ok::<Instruction, Fault>(Instruction(word)),
                Err(f) => Err::<Instruction, Fault>(f),
            },
    {
        match self.read_word(addr) {
            Ok(word) => Ok(Instruction(word)),
            Err(f) => Err(f),
        }
    }

    fn write_gpr(&mut self, index: usize, value: u64)
        requires
            index < 32,
        ensures
            final(self)@ == old(self)@.gpr_set(index, value),
    {
        self.reg.set_gpr_val(index, value);
    }

    fn read_gpr(&self, index: usize) -> (r: u64)
        requires
            index < 32,
        ensures
            r == self@.gpr(index),
    {
        self.reg.get_gpr_val(index)
    }
}

} // verus!
