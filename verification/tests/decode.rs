use gprust64::cpu::instruction::Instruction;
use gprust64::cpu::opcode::{get_type, Opcode, OpcodeBAL, OpcodeSpecial, Type};
use gprust64::cpu::pipeline::DataWrite;
use gprust64::cpu::registers::{Registers, RegistersUsed};
use gprust64::cpu::virtual_address::VAddr;
use gprust64::fault::Fault;

fn lui(rt: u32, imm: u32) -> Instruction {
    Instruction((0b001111 << 26) | (rt << 16) | imm)
}

fn ori(rt: u32, rs: u32, imm: u32) -> Instruction {
    Instruction((0b001101 << 26) | (rs << 21) | (rt << 16) | imm)
}

fn filled(instr: Instruction, regs: &Registers) -> RegistersUsed {
    let mut record = instr.get_required_registers().unwrap();
    record.process(regs);
    record
}

#[test]
fn fields_are_read_from_their_fixed_places() {
    let word = 0b101010_10101_01010_11001_00111_110011u32;
    let i = Instruction(word);
    assert_eq!(i.get_bits(26, 6), 0b101010);
    assert_eq!(i.source(), 0b10101);
    assert_eq!(i.target_immediate(), 0b01010);
    assert_eq!(i.target_register(), 0b01010);
    assert_eq!(i.destination(), 0b11001);
    assert_eq!(i.shift_amount(), 0b00111);
    assert_eq!(i.immediate(), 0b11001_00111_110011);
    assert_eq!(i.target_jump(), 0b10101_01010_11001_00111_110011);
    assert_eq!(i.get_bits(0, 1), 1);
    assert_eq!(i.get_bits(31, 1), 1);
    assert_eq!(i.get_bits(0, 31), word & 0x7fff_ffff);
    assert_eq!(i.get_bits(5, 0), 0);
}

#[test]
fn immediate_extend_copies_the_sign_bit() {
    assert_eq!(Instruction(0x0000_7fff).immediate_extend(), 0x7fff);
    assert_eq!(Instruction(0x0000_8000).immediate_extend(), 0xffff_ffff_ffff_8000);
    assert_eq!(Instruction(0xabcd_ffff).immediate_extend(), 0xffff_ffff_ffff_ffff);
    assert_eq!(Instruction(0xabcd_0000).immediate_extend(), 0);
}

#[test]
fn primary_opcodes_resolve_in_one_step() {
    assert_eq!(lui(9, 0).opcode(), Ok(Opcode::LUI));
    assert_eq!(Instruction(0b001000 << 26).opcode(), Ok(Opcode::ADDI));
    assert_eq!(Instruction(0b001001 << 26).opcode(), Ok(Opcode::ADDIU));
    assert_eq!(Instruction(0b001100 << 26).opcode(), Ok(Opcode::ANDI));
    assert_eq!(Instruction(0b001101 << 26).opcode(), Ok(Opcode::ORI));
    assert_eq!(Instruction(0b000100 << 26).opcode(), Ok(Opcode::BEQ));
    assert_eq!(Instruction(0b010100 << 26).opcode(), Ok(Opcode::BEQL));
    assert_eq!(Instruction(0b000101 << 26).opcode(), Ok(Opcode::BNE));
    assert_eq!(Instruction(0b010101 << 26).opcode(), Ok(Opcode::BNEL));
    assert_eq!(Instruction(0b100011 << 26).opcode(), Ok(Opcode::LW));
    assert_eq!(Instruction(0b101011 << 26).opcode(), Ok(Opcode::SW));
}

#[test]
fn coprocessor_escape_resolves_from_the_rs_field() {
    let mtc0 = Instruction((0b010000 << 26) | (0b00100 << 21) | (7 << 16) | (12 << 11));
    assert_eq!(mtc0.opcode(), Ok(Opcode::MTC0));
    let unknown = Instruction((0b010000 << 26) | (0b00000 << 21));
    assert_eq!(
        unknown.opcode(),
        Err(Fault::Decode { word: unknown.0, opcode: 0b1111100000 })
    );
}

#[test]
fn escape_groups_without_an_opcode_fault() {
    let special = Instruction(0b100101);
    assert_eq!(
        special.opcode(),
        Err(Fault::Decode { word: special.0, opcode: 0b11000000 | 0b100101 })
    );
    let regimm = Instruction((0b000001 << 26) | (0b10001 << 16));
    assert_eq!(
        regimm.opcode(),
        Err(Fault::Decode { word: regimm.0, opcode: 0b111100000 | 0b10001 })
    );
}

#[test]
fn undefined_primary_opcode_faults() {
    let j = Instruction(0b000010 << 26);
    assert_eq!(j.opcode(), Err(Fault::Decode { word: j.0, opcode: 0b000010 }));
    let all = Instruction(0xffff_ffff);
    assert_eq!(all.opcode(), Err(Fault::Decode { word: 0xffff_ffff, opcode: 0b111111 }));
}

#[test]
fn flat_numbers_are_looked_up_both_ways() {
    let all = [
        Opcode::SPECIAL,
        Opcode::REGIMM,
        Opcode::COPROC,
        Opcode::ADDI,
        Opcode::ADDIU,
        Opcode::ANDI,
        Opcode::ORI,
        Opcode::LUI,
        Opcode::BEQ,
        Opcode::BEQL,
        Opcode::BNE,
        Opcode::BNEL,
        Opcode::LW,
        Opcode::SW,
        Opcode::MTC0,
    ];
    for op in all {
        assert_eq!(Opcode::from_u16(op.flat_number()), Some(op));
    }
    let mut found = 0;
    for value in 0..=0xffffu16 {
        if let Some(op) = Opcode::from_u16(value) {
            assert_eq!(op.flat_number(), value);
            found += 1;
        }
    }
    assert_eq!(found, 15);
    assert_eq!(Opcode::MTC0.flat_number(), 0b1111100100);
}

#[test]
fn special_group_opcodes_resolve_from_the_function_field() {
    assert_eq!(Instruction(0b000000).opcode_special(), Ok(OpcodeSpecial::SLL));
    assert_eq!(Instruction(0b000010).opcode_special(), Ok(OpcodeSpecial::SRL));
    assert_eq!(Instruction(0b000100).opcode_special(), Ok(OpcodeSpecial::SLLV));
    assert_eq!(Instruction(0b000110).opcode_special(), Ok(OpcodeSpecial::SRLV));
    assert_eq!(Instruction(0b001000).opcode_special(), Ok(OpcodeSpecial::JR));
    assert_eq!(Instruction(0b010000).opcode_special(), Ok(OpcodeSpecial::MFHI));
    assert_eq!(Instruction(0b010010).opcode_special(), Ok(OpcodeSpecial::MFLO));
    assert_eq!(Instruction(0b011001).opcode_special(), Ok(OpcodeSpecial::MULTU));
    assert_eq!(Instruction(0b100001).opcode_special(), Ok(OpcodeSpecial::ADDU));
    assert_eq!(Instruction(0b100011).opcode_special(), Ok(OpcodeSpecial::SUBU));
    assert_eq!(Instruction(0b100100).opcode_special(), Ok(OpcodeSpecial::AND));
    assert_eq!(Instruction(0b100101).opcode_special(), Ok(OpcodeSpecial::OR));
    assert_eq!(Instruction(0b100110).opcode_special(), Ok(OpcodeSpecial::XOR));
    assert_eq!(Instruction(0b101011).opcode_special(), Ok(OpcodeSpecial::SLTU));
    assert_eq!(
        Instruction(0xffff_ffc1).opcode_special(),
        Err(Fault::Decode { word: 0xffff_ffc1, opcode: 1 })
    );
    let mut found = 0;
    for value in 0..=255u8 {
        if OpcodeSpecial::from_u8(value).is_some() {
            found += 1;
        }
    }
    assert_eq!(found, 14);
}

#[test]
fn branch_group_opcode_resolves_from_the_rt_field() {
    assert_eq!(Instruction(0b10001 << 16).opcode_bal(), Ok(OpcodeBAL::BGEZAL));
    assert_eq!(
        Instruction(0b10000 << 16).opcode_bal(),
        Err(Fault::Decode { word: 0b10000 << 16, opcode: 0b10000 })
    );
    assert_eq!(OpcodeBAL::from_u8(0b10001), Some(OpcodeBAL::BGEZAL));
    assert_eq!(OpcodeBAL::from_u8(0), None);
}

#[test]
fn shape_table_gives_each_opcode_its_shape() {
    assert_eq!(get_type(lui(9, 0)), Ok(Type::ITYPE));
    assert_eq!(get_type(ori(1, 2, 3)), Ok(Type::ITYPE));
    assert_eq!(get_type(Instruction(0b001100 << 26)), Ok(Type::ITYPE));
    assert_eq!(get_type(Instruction(0b100011 << 26)), Ok(Type::ITYPE));
    assert_eq!(get_type(Instruction(0b010100 << 26)), Ok(Type::ITYPE));
    let mtc0 = Instruction((0b010000 << 26) | (0b00100 << 21));
    assert_eq!(get_type(mtc0), Ok(Type::RTYPECP));
    let addi = Instruction(0b001000 << 26);
    assert_eq!(get_type(addi), Err(Fault::Decode { word: addi.0, opcode: 0b001000 }));
    let bad = Instruction(0b111111 << 26);
    assert_eq!(get_type(bad), Err(Fault::Decode { word: bad.0, opcode: 0b111111 }));
    assert_eq!(Opcode::LUI.shape(), Some(Type::ITYPE));
    assert_eq!(Opcode::SW.shape(), None);
}

#[test]
fn required_registers_follow_the_shape() {
    let record = ori(4, 5, 0x42).get_required_registers().unwrap();
    assert_eq!(record, RegistersUsed::itype(4, 5));
    let mtc0 = Instruction((0b010000 << 26) | (0b00100 << 21) | (7 << 16) | (12 << 11));
    assert_eq!(mtc0.get_required_registers(), Ok(RegistersUsed::rtypecp(7, 12)));
    let sw = Instruction(0b101011 << 26);
    assert_eq!(
        sw.get_required_registers(),
        Err(Fault::Decode { word: sw.0, opcode: 0b101011 })
    );
}

#[test]
fn lui_into_r9_with_zero_immediate() {
    let instr = Instruction(0b001111_00000_01001_0000000000000000);
    assert_eq!(instr.opcode(), Ok(Opcode::LUI));
    assert_eq!(instr.target_immediate(), 9);
    assert_eq!(instr.immediate(), 0);
    let regs = Registers::default();
    let record = filled(instr, &regs);
    let mut out = DataWrite::default();
    let done = Opcode::LUI.ex_phase1(record, instr.immediate(), &mut out).unwrap();
    assert_eq!(done.get_output_register(), Some(9));
    assert_eq!(done.get_output_value(), Some(0x0000_0000_0000_0000));
    assert_eq!(out, DataWrite::default());
}

#[test]
fn lui_sign_extends_through_the_32_bit_word() {
    let regs = Registers::default();
    let cases: [(u32, u64); 6] = [
        (0x0001, 0x0000_0000_0001_0000),
        (0x1234, 0x0000_0000_1234_0000),
        (0x7fff, 0x0000_0000_7fff_0000),
        (0x8000, 0xffff_ffff_8000_0000),
        (0xbeef, 0xffff_ffff_beef_0000),
        (0xffff, 0xffff_ffff_ffff_0000),
    ];
    for (imm, value) in cases {
        let instr = lui(9, imm);
        let record = filled(instr, &regs);
        let mut out = DataWrite::default();
        let done = Opcode::LUI.ex_phase1(record, instr.immediate(), &mut out).unwrap();
        assert_eq!(done.get_output_value(), Some(value));
        assert_eq!(done.rt_val, Some(value));
    }
}

#[test]
fn ori_and_andi_zero_extend_the_immediate() {
    let mut regs = Registers::default();
    regs.set_gpr_val(5, 0xffff_0000_0000_00f0);
    let instr = ori(6, 5, 0x8000);
    let record = filled(instr, &regs);
    let mut out = DataWrite::default();
    let done = Opcode::ORI.ex_phase1(record, 0x8000, &mut out).unwrap();
    assert_eq!(done.get_output_value(), Some(0xffff_0000_0000_80f0));
    let done = Opcode::ANDI.ex_phase1(record, 0x80f0, &mut out).unwrap();
    assert_eq!(done.get_output_value(), Some(0x0000_0000_0000_00f0));
    regs.set_gpr_val(5, 0xffff_ffff_ffff_ffff);
    let record = filled(instr, &regs);
    let done = Opcode::ANDI.ex_phase1(record, 0x8000, &mut out).unwrap();
    assert_eq!(done.get_output_value(), Some(0x0000_0000_0000_8000));
    assert_eq!(out, DataWrite::default());
}

#[test]
fn mtc0_leaves_a_pending_coprocessor_write() {
    let mut regs = Registers::default();
    regs.set_gpr_val(7, 0x1234_5678_9abc_def0);
    let mtc0 = Instruction((0b010000 << 26) | (0b00100 << 21) | (7 << 16) | (12 << 11));
    let record = filled(mtc0, &regs);
    let mut out = DataWrite::default();
    let done = Opcode::MTC0.ex_phase1(record, mtc0.immediate(), &mut out).unwrap();
    assert_eq!(done, record);
    assert_eq!(out.cp0_data_register, Some(12));
    assert_eq!(out.cp0_data_to_write, 0x1234_5678_9abc_def0);
    assert_eq!(out.vaddr, VAddr(0));
}

#[test]
fn lw_computes_its_address_and_checks_alignment() {
    let mut regs = Registers::default();
    regs.set_gpr_val(5, 0xffff_ffff_a000_0010);
    let lw = Instruction((0b100011 << 26) | (5 << 21) | (6 << 16) | 0xfff0);
    let record = filled(lw, &regs);
    let mut out = DataWrite::default();
    let done = Opcode::LW.ex_phase1(record, 0xfff0, &mut out).unwrap();
    assert_eq!(done, record);
    assert_eq!(out.vaddr, VAddr(0xffff_ffff_a000_0000));
    assert_eq!(out.cp0_data_register, None);

    let mut out = DataWrite::default();
    let done = Opcode::LW.ex_phase1(record, 0x0004, &mut out).unwrap();
    assert_eq!(done, record);
    assert_eq!(out.vaddr, VAddr(0xffff_ffff_a000_0014));

    let mut out = DataWrite::default();
    assert_eq!(
        Opcode::LW.ex_phase1(record, 0x0002, &mut out),
        Err(Fault::Address { address: 0xffff_ffff_a000_0012 })
    );
    assert_eq!(out, DataWrite::default());
}

#[test]
fn lw_address_wraps_at_64_bits() {
    let mut regs = Registers::default();
    regs.set_gpr_val(5, 0xffff_ffff_ffff_fffc);
    let lw = Instruction((0b100011 << 26) | (5 << 21) | (6 << 16) | 0x0008);
    let record = filled(lw, &regs);
    let mut out = DataWrite::default();
    Opcode::LW.ex_phase1(record, 0x0008, &mut out).unwrap();
    assert_eq!(out.vaddr, VAddr(4));
}

#[test]
fn second_execute_phase_changes_nothing() {
    let record = RegistersUsed::itype(1, 2).with_output(5);
    assert_eq!(Opcode::LUI.ex_phase2(record, 0x1234), record);
    assert_eq!(Opcode::MTC0.ex_phase2(record, 0), record);
}

#[test]
fn opcode_tables_name_what_executes_and_what_writes() {
    for op in [Opcode::LUI, Opcode::ORI, Opcode::ANDI] {
        assert!(op.is_executable());
        assert!(op.writes_gpr());
    }
    for op in [Opcode::MTC0, Opcode::LW] {
        assert!(op.is_executable());
        assert!(!op.writes_gpr());
    }
    for op in [Opcode::BEQL, Opcode::SW, Opcode::ADDI, Opcode::SPECIAL] {
        assert!(!op.is_executable());
        assert!(!op.writes_gpr());
    }
}
