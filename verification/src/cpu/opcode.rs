use vstd::prelude::*;
use crate::cpu::instruction::{
    sign_extend_16, sign_extend_32, sign_extended_16, sign_extended_32, Instruction,
};
use crate::cpu::pipeline::DataWrite;
use crate::cpu::registers::RegistersUsed;
use crate::cpu::virtual_address::VAddr;
use crate::fault::Fault;

verus! {

/// The operand shape of an instruction.
#[derive(Clone, Copy, Debug, PartialEq, Eq, Structural)]
pub enum Type {
    /// Immediate format: reads `rs`, writes `rt`, carries a 16-bit
    /// immediate.
    ITYPE,
    /// Register format: reads `rs` and `rt`, writes `rd`.
    RTYPE,
    /// Register format of a coprocessor move: reads `rt`, writes the
    /// coprocessor register that `rd` names.
    RTYPECP,
    /// Jump format: no register operand.
    JTYPE,
}

/// The opcodes, in one flat numbering.  A primary opcode is numbered by
/// its six bits.  An opcode inside an escape group is numbered by its
/// secondary bits below a reserved high pattern that no primary opcode
/// has: `0b11` over six bits for the ALU group, `0b1111` over five bits
/// for the branch group, `0b11111` over five bits for the coprocessor
/// group.
#[derive(Clone, Copy, Debug, PartialEq, Eq, Structural)]
pub enum Opcode {
    SPECIAL,
    REGIMM,
    COPROC,
    ADDI,
    ADDIU,
    ANDI,
    ORI,
    LUI,
    BEQ,
    BEQL,
    BNE,
    BNEL,
    LW,
    SW,
    MTC0,
}

/// High pattern of a flat number in the ALU escape group.
pub const SPECIAL_PREFIX: u16 = 0b11000000;

/// High pattern of a flat number in the branch escape group.
pub const REGIMM_PREFIX: u16 = 0b111100000;

/// High pattern of a flat number in the coprocessor escape group.
pub const COPROC_PREFIX: u16 = 0b1111100000;

impl Opcode {
    /// The flat number of the opcode.
    pub open spec fn code(&self) -> u16 {
        match *self {
            Opcode::SPECIAL => 0b000000,
            Opcode::REGIMM => 0b000001,
            Opcode::COPROC => 0b010000,
            Opcode::ADDI => 0b001000,
            Opcode::ADDIU => 0b001001,
            Opcode::ANDI => 0b001100,
            Opcode::ORI => 0b001101,
            Opcode::LUI => 0b001111,
            Opcode::BEQ => 0b000100,
            Opcode::BEQL => 0b010100,
            Opcode::BNE => 0b000101,
            Opcode::BNEL => 0b010101,
            Opcode::LW => 0b100011,
            Opcode::SW => 0b101011,
            Opcode::MTC0 => 0b1111100100,
        }
    }

    /// The flat number of the opcode.
    pub fn flat_number(&self) -> (r: u16)
        ensures
            r == self.code(),
    {
        match *self {
            Opcode::SPECIAL => 0b000000,
            Opcode::REGIMM => 0b000001,
            Opcode::COPROC => 0b010000,
            Opcode::ADDI => 0b001000,
            Opcode::ADDIU => 0b001001,
            Opcode::ANDI => 0b001100,
            Opcode::ORI => 0b001101,
            Opcode::LUI => 0b001111,
            Opcode::BEQ => 0b000100,
            Opcode::BEQL => 0b010100,
            Opcode::BNE => 0b000101,
            Opcode::BNEL => 0b010101,
            Opcode::LW => 0b100011,
            Opcode::SW => 0b101011,
            Opcode::MTC0 => 0b1111100100,
        }
    }

    /// Whether the opcode is one of the three escape values, which name a
    /// group and not an instruction.
    pub open spec fn is_escape(&self) -> bool {
        *self == Opcode::SPECIAL || *self == Opcode::REGIMM || *self == Opcode::COPROC
    }

    /// The opcode with flat number `value`, if there is one.
    pub open spec fn of_code(value: u16) -> Option<Opcode> {
        if exists|op: Opcode| op.code() == value {
            Some(choose|op: Opcode| op.code() == value)
        } else {
            None
        }
    }

    /// Looks the flat number up.
    pub fn from_u16(value: u16) -> (r: Option<Opcode>)
        ensures
            r == Opcode::of_code(value),
            match r {
                Some(op) => op.code() == value,
                None => forall|op: Opcode| op.code() != value,
            },
    {
        let r = if value == 0b000000 {
            Some(Opcode::SPECIAL)
        } else if value == 0b000001 {
            Some(Opcode::REGIMM)
        } else if value == 0b010000 {
            Some(Opcode::COPROC)
        } else if value == 0b001000 {
            Some(Opcode::ADDI)
        } else if value == 0b001001 {
            Some(Opcode::ADDIU)
        } else if value == 0b001100 {
            Some(Opcode::ANDI)
        } else if value == 0b001101 {
            Some(Opcode::ORI)
        } else if value == 0b001111 {
            Some(Opcode::LUI)
        } else if value == 0b000100 {
            Some(Opcode::BEQ)
        } else if value == 0b010100 {
            Some(Opcode::BEQL)
        } else if value == 0b000101 {
            Some(Opcode::BNE)
        } else if value == 0b010101 {
            Some(Opcode::BNEL)
        } else if value == 0b100011 {
            Some(Opcode::LW)
        } else if value == 0b101011 {
            Some(Opcode::SW)
        } else if value == 0b1111100100 {
            Some(Opcode::MTC0)
        } else {
            None
        };
        proof {
            match r {
                Some(op) => {
                    assert(op.code() == value);
                    lemma_code_injective(op, choose|o: Opcode| o.code() == value);
                },
                None => {
                    assert forall|op: Opcode| op.code() != value by {}
                },
            }
        }
        r
    }

    /// Whether the execute stage knows the opcode.
    pub open spec fn executes(&self) -> bool {
        match *self {
            Opcode::LUI | Opcode::ORI | Opcode::MTC0 | Opcode::LW | Opcode::ANDI => true,
            _ => false,
        }
    }

    /// Whether the opcode is known to the execute stage.
    pub fn is_executable(&self) -> (r: bool)
        ensures
            r == self.executes(),
    {
        match *self {
            Opcode::LUI | Opcode::ORI | Opcode::MTC0 | Opcode::LW | Opcode::ANDI => true,
            _ => false,
        }
    }

    /// Whether the instruction produces a value for its output register,
    /// which writeback then commits to the register file.  A load only
    /// computes its address here, and a move to the coprocessor writes no
    /// general-purpose register.
    pub open spec fn produces_gpr(&self) -> bool {
        match *self {
            Opcode::LUI | Opcode::ORI | Opcode::ANDI => true,
            _ => false,
        }
    }

    /// Whether the instruction produces a value for its output register.
    pub fn writes_gpr(&self) -> (r: bool)
        ensures
            r == self.produces_gpr(),
    {
        match *self {
            Opcode::LUI | Opcode::ORI | Opcode::ANDI => true,
            _ => false,
        }
    }

    /// Whether the record holds every operand that executing the opcode
    /// reads.
    pub open spec fn operands_present(&self, r: RegistersUsed) -> bool {
        match *self {
            Opcode::ORI | Opcode::ANDI | Opcode::LW => r.rs_val is Some,
            Opcode::MTC0 => r.rd is Some && r.rt_val is Some,
            _ => true,
        }
    }

    /// The value that LUI loads: the immediate in the upper half of a
    /// 32-bit word, sign-extended to 64 bits.
    pub open spec fn lui_value(imm: u16) -> u64 {
        sign_extend_32((imm as u32) << 16)
    }

    /// The address that a load or store with base `base` and offset `imm`
    /// names: the base plus the sign-extended offset, wrapping at 64 bits.
    pub open spec fn effective_address(base: u64, imm: u16) -> u64 {
        vstd::wrapping::u64_specs::wrapping_add(base, sign_extend_16(imm))
    }

    /// What the first execute phase yields: the hazard record, holding the
    /// result where the instruction has one, and the side-channel output;
    /// or the address fault of a misaligned load.
    pub open spec fn executed(&self, r: RegistersUsed, imm: u16, out: DataWrite) -> Result<
        (RegistersUsed, DataWrite),
        Fault,
    > {
        match *self {
            Opcode::LUI => Ok((r.holding_output(Opcode::lui_value(imm)), out)),
            Opcode::ORI => Ok((r.holding_output((imm as u64) | r.rs_val.unwrap()), out)),
            Opcode::ANDI => Ok((r.holding_output((imm as u64) & r.rs_val.unwrap()), out)),
            Opcode::MTC0 => Ok(
                (
                    r,
                    DataWrite {
                        cp0_data_register: Some(r.rd.unwrap()),
                        cp0_data_to_write: r.rt_val.unwrap(),
                        ..out
                    },
                ),
            ),
            _ => {
                let vaddr = Opcode::effective_address(r.rs_val.unwrap(), imm);
                if vaddr & 0b11 != 0 {
                    Err(Fault::Address { address: vaddr })
                } else {
                    Ok((r, DataWrite { vaddr: VAddr(vaddr), ..out }))
                }
            },
        }
    }

    /// The first execute phase.  LUI, ORI and ANDI publish their result in
    /// the hazard record; MTC0 leaves a pending coprocessor write in the
    /// side channel; LW leaves its address there, which must be word
    /// aligned.  A faulting call leaves the side channel unchanged.
    pub fn ex_phase1(
        &self,
        reg_values: RegistersUsed,
        imm_value: u16,
        output_data: &mut DataWrite,
    ) -> (r: Result<RegistersUsed, Fault>)
        requires
            self.executes(),
            self.operands_present(reg_values),
        ensures
            match self.executed(reg_values, imm_value, *old(output_data)) {
                Ok((record, out)) => r == Ok::<RegistersUsed, Fault>(record) && *final(output_data)
                    == out,
                Err(f) => r == Err::<RegistersUsed, Fault>(f)
                    && *final(output_data) == *old(output_data),
            },
    {
        match *self {
            Opcode::LUI => {
                Ok(reg_values.with_output(sign_extended_32((imm_value as u32) << 16)))
            },
            Opcode::ORI => {
                let imm_ext: u64 = imm_value as u64;
                Ok(reg_values.with_output(imm_ext | reg_values.rs_val.unwrap()))
            },
            Opcode::MTC0 => {
                output_data.cp0_data_register = Some(reg_values.rd.unwrap());
                output_data.cp0_data_to_write = reg_values.rt_val.unwrap();
                Ok(reg_values)
            },
            Opcode::LW => {
                let imm_ext: u64 = sign_extended_16(imm_value);
                let vaddr: u64 = reg_values.rs_val.unwrap().wrapping_add(imm_ext);
                if vaddr & 0b11 != 0 {
                    return Err(Fault::Address { address: vaddr });
                }
                output_data.vaddr = VAddr(vaddr);
                Ok(reg_values)
            },
            Opcode::ANDI => {
                let imm_ext: u64 = imm_value as u64;
                Ok(reg_values.with_output(imm_ext & reg_values.rs_val.unwrap()))
            },
            _ => Ok(reg_values),
        }
    }

    /// The second execute phase, in which no opcode does anything.
    pub fn ex_phase2(&self, reg: RegistersUsed, imm_value: u16) -> (r: RegistersUsed)
        ensures
            r == reg,
    {
        reg
    }

    /// The operand shape of the opcode, for the opcodes that have one.
    pub open spec fn shape_of(&self) -> Option<Type> {
        match *self {
            Opcode::LUI | Opcode::ORI | Opcode::LW | Opcode::ANDI | Opcode::BEQL => Some(
                Type::ITYPE,
            ),
            Opcode::MTC0 => Some(Type::RTYPECP),
            _ => None,
        }
    }

    /// Looks the opcode's operand shape up in the shape table.
    pub fn shape(&self) -> (r: Option<Type>)
        ensures
            r == self.shape_of(),
    {
        match *self {
            Opcode::LUI | Opcode::ORI | Opcode::LW | Opcode::ANDI | Opcode::BEQL => Some(
                Type::ITYPE,
            ),
            Opcode::MTC0 => Some(Type::RTYPECP),
            _ => None,
        }
    }
}

/// The secondary opcodes of the ALU escape group, numbered by the function
/// field.
#[derive(Clone, Copy, Debug, PartialEq, Eq, Structural)]
pub enum OpcodeSpecial {
    SLL,
    SRL,
    SLLV,
    SRLV,
    JR,
    MFHI,
    MFLO,
    MULTU,
    ADDU,
    SUBU,
    AND,
    OR,
    XOR,
    SLTU,
}

impl OpcodeSpecial {
    /// The value of the function field that names the opcode.
    pub open spec fn code(&self) -> u8 {
        match *self {
            OpcodeSpecial::SLL => 0b000000,
            OpcodeSpecial::SRL => 0b000010,
            OpcodeSpecial::SLLV => 0b000100,
            OpcodeSpecial::SRLV => 0b000110,
            OpcodeSpecial::JR => 0b001000,
            OpcodeSpecial::MFHI => 0b010000,
            OpcodeSpecial::MFLO => 0b010010,
            OpcodeSpecial::MULTU => 0b011001,
            OpcodeSpecial::ADDU => 0b100001,
            OpcodeSpecial::SUBU => 0b100011,
            OpcodeSpecial::AND => 0b100100,
            OpcodeSpecial::OR => 0b100101,
            OpcodeSpecial::XOR => 0b100110,
            OpcodeSpecial::SLTU => 0b101011,
        }
    }

    /// The opcode that function field value `value` names, if there is
    /// one.
    pub open spec fn of_code(value: u8) -> Option<OpcodeSpecial> {
        if exists|op: OpcodeSpecial| op.code() == value {
            Some(choose|op: OpcodeSpecial| op.code() == value)
        } else {
            None
        }
    }

    /// Looks the function field value up.
    pub fn from_u8(value: u8) -> (r: Option<OpcodeSpecial>)
        ensures
            r == OpcodeSpecial::of_code(value),
            match r {
                Some(op) => op.code() == value,
                None => forall|op: OpcodeSpecial| op.code() != value,
            },
    {
        let r = if value == 0b000000 {
            Some(OpcodeSpecial::SLL)
        } else if value == 0b000010 {
            Some(OpcodeSpecial::SRL)
        } else if value == 0b000100 {
            Some(OpcodeSpecial::SLLV)
        } else if value == 0b000110 {
            Some(OpcodeSpecial::SRLV)
        } else if value == 0b001000 {
            Some(OpcodeSpecial::JR)
        } else if value == 0b010000 {
            Some(OpcodeSpecial::MFHI)
        } else if value == 0b010010 {
            Some(OpcodeSpecial::MFLO)
        } else if value == 0b011001 {
            Some(OpcodeSpecial::MULTU)
        } else if value == 0b100001 {
            Some(OpcodeSpecial::ADDU)
        } else if value == 0b100011 {
            Some(OpcodeSpecial::SUBU)
        } else if value == 0b100100 {
            Some(OpcodeSpecial::AND)
        } else if value == 0b100101 {
            Some(OpcodeSpecial::OR)
        } else if value == 0b100110 {
            Some(OpcodeSpecial::XOR)
        } else if value == 0b101011 {
            Some(OpcodeSpecial::SLTU)
        } else {
            None
        };
        proof {
            match r {
                Some(op) => {
                    assert(op.code() == value);
                    lemma_special_code_injective(
                        op,
                        choose|o: OpcodeSpecial| o.code() == value,
                    );
                },
                None => {
                    assert forall|op: OpcodeSpecial| op.code() != value by {}
                },
            }
        }
        r
    }
}

/// No two opcodes of the ALU group share a function field value.
pub proof fn lemma_special_code_injective(a: OpcodeSpecial, b: OpcodeSpecial)
    requires
        a.code() == b.code(),
    ensures
        a == b,
{
}

/// The secondary opcodes of the branch escape group, numbered by the `rt`
/// field.
#[derive(Clone, Copy, Debug, PartialEq, Eq, Structural)]
pub enum OpcodeBAL {
    BGEZAL,
}

impl OpcodeBAL {
    /// The value of the `rt` field that names the opcode.
    pub open spec fn code(&self) -> u8 {
        match *self {
            OpcodeBAL::BGEZAL => 0b10001,
        }
    }

    /// The opcode that `rt` field value `value` names, if there is one.
    pub open spec fn of_code(value: u8) -> Option<OpcodeBAL> {
        if value == 0b10001 {
            Some(OpcodeBAL::BGEZAL)
        } else {
            None
        }
    }

    /// Looks the `rt` field value up.
    pub fn from_u8(value: u8) -> (r: Option<OpcodeBAL>)
        ensures
            r == OpcodeBAL::of_code(value),
            match r {
                Some(op) => op.code() == value,
                None => forall|op: OpcodeBAL| op.code() != value,
            },
    {
        if value == 0b10001 {
            Some(OpcodeBAL::BGEZAL)
        } else {
            None
        }
    }
}

/// Looks the operand shape of an instruction up: its opcode is resolved,
/// then found in the shape table.  An opcode without a shape is a decode
/// fault.
pub fn get_type(instr: Instruction) -> (r: Result<Type, Fault>)
    ensures
        r == instr.shape(),
{
    match instr.opcode() {
        Err(f) => Err(f),
        Ok(opcode) => match opcode.shape() {
            Some(t) => Ok(t),
            None => {
                let code: u16 = opcode.flat_number();
                Err(Fault::Decode { word: instr.0, opcode: code })
            },
        },
    }
}

/// LUI of an immediate below `0x8000` loads the immediate shifted left by
/// sixteen bits, with the upper half of the register zero; with bit 15 of
/// the immediate set, the upper half of the register is all ones.
pub proof fn lemma_lui_value(imm: u16)
    by (bit_vector)
    ensures
        imm < 0x8000 ==> sign_extend_32((imm as u32) << 16) == (imm as u64) << 16,
        imm >= 0x8000 ==> sign_extend_32((imm as u32) << 16) == 0xffff_ffff_0000_0000u64 | ((
        imm as u64) << 16),
        sign_extend_32((imm as u32) << 16) & 0xffff == 0,
{
}

/// ORI and ANDI take their immediate zero-extended: no bit above bit 15 of
/// the source value is set by ORI, and none survives ANDI.
pub proof fn lemma_logical_immediates_zero_extend(imm: u16, rs_val: u64)
    by (bit_vector)
    ensures
        ((imm as u64) | rs_val) >> 16 == rs_val >> 16,
        ((imm as u64) & rs_val) >> 16 == 0,
        ((imm as u64) | rs_val) & 0xffff == (imm as u64) | (rs_val & 0xffff),
        ((imm as u64) & rs_val) == (imm as u64) & (rs_val & 0xffff),
{
}

/// No two opcodes share a flat number.
pub proof fn lemma_code_injective(a: Opcode, b: Opcode)
    requires
        a.code() == b.code(),
    ensures
        a == b,
{
}

/// Looking up an opcode's own flat number finds that opcode.
pub proof fn lemma_of_code_inverts_code(op: Opcode)
    ensures
        Opcode::of_code(op.code()) == Some(op),
{
    lemma_code_injective(op, choose|o: Opcode| o.code() == op.code());
}

} // verus!
