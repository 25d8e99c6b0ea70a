use vstd::prelude::*;
use crate::cpu::opcode::{
    get_type, Opcode, OpcodeBAL, OpcodeSpecial, Type, COPROC_PREFIX, REGIMM_PREFIX,
    SPECIAL_PREFIX,
};
use crate::cpu::registers::RegistersUsed;
use crate::fault::Fault;

verus! {

/// Width of an instruction in bytes.
pub const INSTRUCTION_SIZE: u64 = 4;

/// A 32-bit instruction word.  Every field is read from its fixed place in
/// the word when asked for; nothing is stored beside the word.
#[derive(Clone, Copy, Debug, PartialEq, Eq, Structural)]
pub struct Instruction(pub u32);

/// The `num_bits` bits of `word` that start at bit `from`.
pub open spec fn field(word: u32, from: u32, num_bits: u32) -> u32 {
    (word >> from) & (((1u32 << num_bits) - 1) as u32)
}

/// A 16-bit value extended to 64 bits by copies of its sign bit.
pub open spec fn sign_extend_16(value: u16) -> u64 {
    if value & 0x8000 != 0 {
        0xffff_ffff_ffff_0000u64 | (value as u64)
    } else {
        value as u64
    }
}

/// A 32-bit value extended to 64 bits by copies of its sign bit.
pub open spec fn sign_extend_32(value: u32) -> u64 {
    if value & 0x8000_0000 != 0 {
        0xffff_ffff_0000_0000u64 | (value as u64)
    } else {
        value as u64
    }
}

/// The low 32 bits of a 64-bit value.
pub open spec fn low_word(value: u64) -> u32 {
    (value & 0xffff_ffff) as u32
}

/// Extends a 16-bit value to 64 bits by copies of its sign bit.
pub fn sign_extended_16(value: u16) -> (r: u64)
    ensures
        r == sign_extend_16(value),
{
    if value & 0x8000 != 0 {
        0xffff_ffff_ffff_0000u64 | (value as u64)
    } else {
        value as u64
    }
}

/// Extends a 32-bit value to 64 bits by copies of its sign bit.
pub fn sign_extended_32(value: u32) -> (r: u64)
    ensures
        r == sign_extend_32(value),
{
    if value & 0x8000_0000 != 0 {
        0xffff_ffff_0000_0000u64 | (value as u64)
    } else {
        value as u64
    }
}

/// Cuts a 64-bit value to its low 32 bits.
pub fn truncated_32(value: u64) -> (r: u32)
    ensures
        r == low_word(value),
{
    assert(value & 0xffff_ffff <= 0xffff_ffff) by (bit_vector);
    (value & 0xffff_ffff) as u32
}

/// Sign extension keeps the value's own bits and fills the bits above
/// with its sign; a value without its sign bit is extended by zeros.
pub proof fn lemma_sign_extension(half: u16, word: u32)
    by (bit_vector)
    ensures
        sign_extend_16(half) & 0xffff == half,
        half < 0x8000 ==> sign_extend_16(half) == half,
        half >= 0x8000 ==> sign_extend_16(half) >> 16 == 0xffff_ffff_ffff,
        sign_extend_32(word) & 0xffff_ffff == word,
        word < 0x8000_0000 ==> sign_extend_32(word) == word,
        word >= 0x8000_0000 ==> sign_extend_32(word) >> 32 == 0xffff_ffff,
{
}

/// The widths and positions of the fields, and that each field fits the
/// type it is handed out in.
pub proof fn lemma_fields(word: u32)
    by (bit_vector)
    ensures
        field(word, 26, 6) == word >> 26,
        field(word, 26, 6) < 64,
        field(word, 21, 5) == (word >> 21) & 0x1f,
        field(word, 21, 5) < 32,
        field(word, 16, 5) == (word >> 16) & 0x1f,
        field(word, 16, 5) < 32,
        field(word, 11, 5) == (word >> 11) & 0x1f,
        field(word, 11, 5) < 32,
        field(word, 6, 5) == (word >> 6) & 0x1f,
        field(word, 6, 5) < 32,
        field(word, 0, 6) == word & 0x3f,
        field(word, 0, 6) < 64,
        field(word, 0, 16) == word & 0xffff,
        field(word, 0, 16) < 0x1_0000,
        field(word, 0, 26) == word & 0x3ff_ffff,
        field(word, 0, 26) < 0x400_0000,
{
}

impl Instruction {
    /// The primary opcode field, bits 31..26.
    pub open spec fn primary(&self) -> u16 {
        field(self.0, 26, 6) as u16
    }

    /// The function field, bits 5..0: the secondary opcode of the ALU
    /// group.
    pub open spec fn funct(&self) -> u16 {
        field(self.0, 0, 6) as u16
    }

    /// The immediate field, bits 15..0.
    pub open spec fn imm(&self) -> u16 {
        field(self.0, 0, 16) as u16
    }

    /// The `rs` field, bits 25..21.
    pub open spec fn rs(&self) -> usize {
        field(self.0, 21, 5) as usize
    }

    /// The `rt` field, bits 20..16.
    pub open spec fn rt(&self) -> usize {
        field(self.0, 16, 5) as usize
    }

    /// The `rd` field, bits 15..11.
    pub open spec fn rd(&self) -> usize {
        field(self.0, 11, 5) as usize
    }

    /// The shift amount field, bits 10..6.
    pub open spec fn sa(&self) -> u8 {
        field(self.0, 6, 5) as u8
    }

    /// The jump target field, bits 25..0.
    pub open spec fn jump_target(&self) -> u32 {
        field(self.0, 0, 26)
    }

    /// The flat number under which the instruction's opcode is looked up:
    /// the primary opcode, or, where that is an escape value, the group's
    /// secondary field below the group's high pattern.
    pub open spec fn flat_code(&self) -> u16 {
        match Opcode::of_code(self.primary()) {
            Some(Opcode::SPECIAL) => self.funct() | SPECIAL_PREFIX,
            Some(Opcode::REGIMM) => (self.rt() as u16) | REGIMM_PREFIX,
            Some(Opcode::COPROC) => (self.rs() as u16) | COPROC_PREFIX,
            _ => self.primary(),
        }
    }

    /// The opcode that the primary field alone names, which may be an
    /// escape value, or the decode fault of a field that names none.
    pub open spec fn decoded_primary(&self) -> Result<Opcode, Fault> {
        match Opcode::of_code(self.primary()) {
            Some(op) => Ok(op),
            None => Err(Fault::Decode { word: self.0, opcode: self.primary() }),
        }
    }

    /// The instruction's opcode, or the decode fault of a word whose flat
    /// number names no opcode.
    pub open spec fn decoded(&self) -> Result<Opcode, Fault> {
        match Opcode::of_code(self.flat_code()) {
            Some(op) => Ok(op),
            None => Err(Fault::Decode { word: self.0, opcode: self.flat_code() }),
        }
    }

    /// The opcode of an instruction of the ALU group, or the decode fault
    /// of a function field that names none.
    pub open spec fn decoded_special(&self) -> Result<OpcodeSpecial, Fault> {
        match OpcodeSpecial::of_code(self.funct() as u8) {
            Some(op) => Ok(op),
            None => Err(Fault::Decode { word: self.0, opcode: self.funct() }),
        }
    }

    /// The opcode of an instruction of the branch group, or the decode
    /// fault of an `rt` field that names none.
    pub open spec fn decoded_bal(&self) -> Result<OpcodeBAL, Fault> {
        match OpcodeBAL::of_code(self.rt() as u8) {
            Some(op) => Ok(op),
            None => Err(Fault::Decode { word: self.0, opcode: self.rt() as u16 }),
        }
    }

    /// The instruction's operand shape, or the decode fault of an
    /// instruction that has none: an undefined opcode, or an opcode that
    /// the shape table does not hold.
    pub open spec fn shape(&self) -> Result<Type, Fault> {
        match self.decoded() {
            Ok(op) => match op.shape_of() {
                Some(t) => Ok(t),
                None => Err(Fault::Decode { word: self.0, opcode: op.code() }),
            },
            Err(f) => Err(f),
        }
    }

    /// The unfilled hazard record for a given shape: which of the
    /// instruction's register fields take part, and in which role.
    pub open spec fn record_for(&self, shape: Type) -> RegistersUsed {
        match shape {
            Type::ITYPE => RegistersUsed {
                rtype: Type::ITYPE,
                rt: Some(self.rt()),
                rs: Some(self.rs()),
                rd: None,
                rt_val: None,
                rs_val: None,
                rd_val: None,
            },
            Type::RTYPECP => RegistersUsed {
                rtype: Type::RTYPECP,
                rt: Some(self.rt()),
                rs: None,
                rd: Some(self.rd()),
                rt_val: None,
                rs_val: None,
                rd_val: None,
            },
            Type::RTYPE => RegistersUsed {
                rtype: Type::RTYPE,
                rt: Some(self.rt()),
                rs: Some(self.rs()),
                rd: Some(self.rd()),
                rt_val: None,
                rs_val: None,
                rd_val: None,
            },
            Type::JTYPE => RegistersUsed {
                rtype: Type::JTYPE,
                rt: None,
                rs: None,
                rd: None,
                rt_val: None,
                rs_val: None,
                rd_val: None,
            },
        }
    }

    /// The instruction's unfilled hazard record, or its decode fault.
    pub open spec fn required_registers(&self) -> Result<RegistersUsed, Fault> {
        match self.shape() {
            Ok(t) => Ok(self.record_for(t)),
            Err(f) => Err(f),
        }
    }

    /// The `num_bits` bits of the word that start at bit `from`.
    pub fn get_bits(&self, from: u8, num_bits: u8) -> (bits: u32)
        requires
            from < 32,
            num_bits < 32,
        ensures
            bits == field(self.0, from as u32, num_bits as u32),
    {
        let n: u32 = num_bits as u32;
        assert((1u32 << n) >= 1) by (bit_vector)
            requires
                n < 32,
        ;
        (self.0 >> (from as u32)) & ((1u32 << n) - 1)
    }

    /// Resolves the instruction's opcode in two steps: the primary opcode
    /// first, then, for an escape value, the group's secondary field.  A
    /// word that resolves to nothing is a decode fault.
    pub fn opcode(&self) -> (r: Result<Opcode, Fault>)
        ensures
            r == self.decoded(),
    {
        proof {
            lemma_fields(self.0);
        }
        let opcode_val: u16 = self.get_bits(26, 6) as u16;
        match Opcode::from_u16(opcode_val) {
            None => Err(Fault::Decode { word: self.0, opcode: opcode_val }),
            Some(Opcode::SPECIAL) => {
                let opcode_special_val: u16 = (self.get_bits(0, 6) as u16) | SPECIAL_PREFIX;
                match Opcode::from_u16(opcode_special_val) {
                    Some(op) => Ok(op),
                    None => Err(Fault::Decode { word: self.0, opcode: opcode_special_val }),
                }
            },
            Some(Opcode::REGIMM) => {
                let opcode_regimm_val: u16 = (self.get_bits(16, 5) as u16) | REGIMM_PREFIX;
                match Opcode::from_u16(opcode_regimm_val) {
                    Some(op) => Ok(op),
                    None => Err(Fault::Decode { word: self.0, opcode: opcode_regimm_val }),
                }
            },
            Some(Opcode::COPROC) => {
                let opcode_coproc_val: u16 = (self.get_bits(21, 5) as u16) | COPROC_PREFIX;
                match Opcode::from_u16(opcode_coproc_val) {
                    Some(op) => Ok(op),
                    None => Err(Fault::Decode { word: self.0, opcode: opcode_coproc_val }),
                }
            },
            Some(op) => Ok(op),
        }
    }

    /// Looks the primary opcode field up, without resolving an escape
    /// value further.
    pub fn opcode_primary(&self) -> (r: Result<Opcode, Fault>)
        ensures
            r == self.decoded_primary(),
    {
        proof {
            lemma_fields(self.0);
        }
        let opcode_val: u16 = self.get_bits(26, 6) as u16;
        match Opcode::from_u16(opcode_val) {
            Some(op) => Ok(op),
            None => Err(Fault::Decode { word: self.0, opcode: opcode_val }),
        }
    }

    /// Resolves the secondary opcode of an instruction of the ALU group
    /// from its function field.
    pub fn opcode_special(&self) -> (r: Result<OpcodeSpecial, Fault>)
        ensures
            r == self.decoded_special(),
    {
        proof {
            lemma_fields(self.0);
        }
        let opcode: u8 = self.get_bits(0, 6) as u8;
        match OpcodeSpecial::from_u8(opcode) {
            Some(op) => Ok(op),
            None => Err(Fault::Decode { word: self.0, opcode: opcode as u16 }),
        }
    }

    /// Resolves the secondary opcode of an instruction of the branch group
    /// from its `rt` field.
    pub fn opcode_bal(&self) -> (r: Result<OpcodeBAL, Fault>)
        ensures
            r == self.decoded_bal(),
    {
        proof {
            lemma_fields(self.0);
        }
        let opcode: u8 = self.get_bits(16, 5) as u8;
        match OpcodeBAL::from_u8(opcode) {
            Some(op) => Ok(op),
            None => Err(Fault::Decode { word: self.0, opcode: opcode as u16 }),
        }
    }

    /// The immediate field.
    pub fn immediate(&self) -> (r: u16)
        ensures
            r == self.imm(),
            r == self.0 & 0xffff,
    {
        proof {
            lemma_fields(self.0);
        }
        self.get_bits(0, 16) as u16
    }

    /// The immediate field, sign-extended to 64 bits.
    pub fn immediate_extend(&self) -> (r: u64)
        ensures
            r == sign_extend_16(self.imm()),
    {
        sign_extended_16(self.immediate())
    }

    /// The `rs` field: the index of the source register.
    pub fn source(&self) -> (r: usize)
        ensures
            r == self.rs(),
            r == (self.0 >> 21) & 0x1f,
            r < 32,
    {
        proof {
            lemma_fields(self.0);
        }
        self.get_bits(21, 5) as usize
    }

    /// The `rd` field: the index of the destination register.
    pub fn destination(&self) -> (r: usize)
        ensures
            r == self.rd(),
            r == (self.0 >> 11) & 0x1f,
            r < 32,
    {
        proof {
            lemma_fields(self.0);
        }
        self.get_bits(11, 5) as usize
    }

    /// The shift amount field.
    pub fn shift_amount(&self) -> (r: u8)
        ensures
            r == self.sa(),
            r == (self.0 >> 6) & 0x1f,
            r < 32,
    {
        proof {
            lemma_fields(self.0);
        }
        self.get_bits(6, 5) as u8
    }

    /// The `rt` field: the index of the target register of an immediate
    /// instruction.
    pub fn target_immediate(&self) -> (r: usize)
        ensures
            r == self.rt(),
            r == (self.0 >> 16) & 0x1f,
            r < 32,
    {
        proof {
            lemma_fields(self.0);
        }
        self.get_bits(16, 5) as usize
    }

    /// The jump target field.
    pub fn target_jump(&self) -> (r: u32)
        ensures
            r == self.jump_target(),
            r == self.0 & 0x3ff_ffff,
    {
        proof {
            lemma_fields(self.0);
        }
        self.get_bits(0, 26)
    }

    /// The `rt` field: the index of the target register of a register
    /// instruction.
    pub fn target_register(&self) -> (r: usize)
        ensures
            r == self.rt(),
            r < 32,
    {
        self.target_immediate()
    }

    /// Builds the unfilled hazard record of the instruction from the shape
    /// table.
    pub fn get_required_registers(&self) -> (r: Result<RegistersUsed, Fault>)
        ensures
            r == self.required_registers(),
            r matches Ok(record) ==> record.wf(),
    {
        match get_type(*self) {
            Err(f) => Err(f),
            Ok(Type::ITYPE) => Ok(RegistersUsed::itype(self.target_immediate(), self.source())),
            Ok(Type::RTYPECP) => Ok(
                RegistersUsed::rtypecp(self.target_register(), self.destination()),
            ),
            Ok(Type::RTYPE) => Ok(
                RegistersUsed::rtype(self.target_immediate(), self.source(), self.destination()),
            ),
            Ok(Type::JTYPE) => Ok(RegistersUsed::jtype()),
        }
    }
}

/// Decoding never yields an escape value: an instruction of an escape
/// group resolves to an opcode of the group or faults.
pub proof fn lemma_decoded_is_no_escape(instr: Instruction)
    ensures
        instr.decoded() matches Ok(op) ==> !op.is_escape(),
{
    lemma_fields(instr.0);
    let p = instr.primary();
    let w = instr.0;
    if Opcode::of_code(p) is Some {
        let first = Opcode::of_code(p).unwrap();
        assert(first.code() == p);
    }
    if instr.decoded() is Ok {
        let op = instr.decoded().unwrap();
        assert(op.code() == instr.flat_code());
        let f: u16 = instr.funct();
        let t: u16 = instr.rt() as u16;
        let s: u16 = instr.rs() as u16;
        assert(f | 0b11000000u16 >= 0b11000000u16 && t | 0b111100000u16 >= 0b111100000u16 && s
            | 0b1111100000u16 >= 0b1111100000u16) by (bit_vector);
    }
}

/// Every register index of a hazard record built from an instruction is
/// below 32.
pub proof fn lemma_record_wf(instr: Instruction, shape: Type)
    ensures
        instr.record_for(shape).wf(),
{
    lemma_fields(instr.0);
}

} // verus!
