use gprust64::bus::Bus;
use gprust64::cpu::cp0::reg_config::TransferDataPattern;
use gprust64::cpu::cpu::Cpu;
use gprust64::cpu::instruction::{sign_extended_16, sign_extended_32, truncated_32, Instruction};
use gprust64::cpu::interpreter::{
    BranchCondition, ImmediateOperation, RegisterOperation, ShiftOperation,
};
use gprust64::cpu::opcode::Opcode;
use gprust64::cpu::virtual_address::vaddr_to_paddr;
use gprust64::fault::Fault;

const RESET: u64 = 0xffff_ffff_bfc0_0000;

fn rom_of(words: &[u32]) -> Vec<u8> {
    let mut rom = Vec::new();
    for k in 0..(0x7c0 / 4) {
        let word = if k < words.len() { words[k] } else { 0x3c00_0000 };
        rom.push((word >> 24) as u8);
        rom.push((word >> 16) as u8);
        rom.push((word >> 8) as u8);
        rom.push(word as u8);
    }
    rom
}

fn cpu(words: &[u32]) -> Cpu {
    Cpu::new(Bus::new(rom_of(words), vec![0u8; 0x1000]))
}

fn special(rs: u32, rt: u32, rd: u32, sa: u32, funct: u32) -> u32 {
    (rs << 21) | (rt << 16) | (rd << 11) | (sa << 6) | funct
}

fn imm(op: u32, rs: u32, rt: u32, value: u32) -> u32 {
    (op << 26) | (rs << 21) | (rt << 16) | value
}

const ADDI: u32 = 0b001000;
const ADDIU: u32 = 0b001001;
const ANDI: u32 = 0b001100;
const ORI: u32 = 0b001101;
const LUI: u32 = 0b001111;
const BEQ: u32 = 0b000100;
const BEQL: u32 = 0b010100;
const BNE: u32 = 0b000101;
const BNEL: u32 = 0b010101;
const LW: u32 = 0b100011;
const SW: u32 = 0b101011;
const REGIMM: u32 = 0b000001;

fn run(cpu: &mut Cpu, n: usize) {
    for _ in 0..n {
        cpu.run_instruction().unwrap();
    }
}

#[test]
fn sign_extension_helpers() {
    assert_eq!(sign_extended_16(0x7fff), 0x7fff);
    assert_eq!(sign_extended_16(0x8000), 0xffff_ffff_ffff_8000);
    assert_eq!(sign_extended_32(0x7fff_ffff), 0x7fff_ffff);
    assert_eq!(sign_extended_32(0x8000_0000), 0xffff_ffff_8000_0000);
    assert_eq!(truncated_32(0x1234_5678_9abc_def0), 0x9abc_def0);
}

#[test]
fn plain_translation() {
    assert_eq!(vaddr_to_paddr(RESET), Ok(0x1fc0_0000));
    assert_eq!(vaddr_to_paddr(0x1000), Err(Fault::Address { address: 0x1000 }));
}

#[test]
fn primary_opcode_lookup_keeps_escape_values() {
    assert_eq!(Instruction(0x0000_0025).opcode_primary(), Ok(Opcode::SPECIAL));
    assert_eq!(Instruction(0x0411_0000).opcode_primary(), Ok(Opcode::REGIMM));
    assert_eq!(Instruction(0x4080_0000).opcode_primary(), Ok(Opcode::COPROC));
    assert_eq!(Instruction(0x3c00_0000).opcode_primary(), Ok(Opcode::LUI));
    assert_eq!(
        Instruction(0x0800_0000).opcode_primary(),
        Err(Fault::Decode { word: 0x0800_0000, opcode: 2 })
    );
}

#[test]
fn operation_tables() {
    assert_eq!(RegisterOperation::Or.compute(0b1100, 0b1010), 0b1110);
    assert_eq!(RegisterOperation::And.compute(0b1100, 0b1010), 0b1000);
    assert_eq!(RegisterOperation::Xor.compute(0b1100, 0b1010), 0b0110);
    assert_eq!(RegisterOperation::Addu.compute(u64::MAX, 2), 1);
    assert_eq!(RegisterOperation::Subu.compute(1, 2), u64::MAX);
    assert_eq!(RegisterOperation::Sltu.compute(1, 2), 1);
    assert_eq!(RegisterOperation::Sltu.compute(2, 2), 0);
    assert_eq!(RegisterOperation::Sltu.compute(u64::MAX, 0), 0);
    assert_eq!(ImmediateOperation::Addiu.compute(5, 0xffff_ffff_ffff_ffff), 4);
    assert_eq!(ImmediateOperation::Andi.compute(0xffff, 0x0ff0), 0x0ff0);
    assert_eq!(ImmediateOperation::Ori.compute(0xf000, 0x000f), 0xf00f);
    assert_eq!(ImmediateOperation::Lui.compute(77, 0x1234), 0x1234_0000);
    assert_eq!(ImmediateOperation::Lui.compute(77, 0x8000), 0xffff_ffff_8000_0000);
    assert_eq!(ShiftOperation::Sll.compute(0x1_0000_0001, 4), 0x10_0000_0010);
    assert_eq!(ShiftOperation::Sllv.compute(1, 31), 0x8000_0000);
    assert_eq!(ShiftOperation::Srl.compute(0xffff_ffff_8000_0000, 4), 0x0800_0000);
    assert_eq!(ShiftOperation::Srlv.compute(0xffff_ffff_8000_0000, 0), 0x8000_0000);
    assert!(ShiftOperation::Sllv.is_variable() && ShiftOperation::Srlv.is_variable());
    assert!(!ShiftOperation::Sll.is_variable() && !ShiftOperation::Srl.is_variable());
    assert!(BranchCondition::Equal.decide(3, 3));
    assert!(!BranchCondition::Equal.decide(3, 4));
    assert!(BranchCondition::NotEqual.decide(3, 4));
    assert!(BranchCondition::NotNegativeAndLink(0).decide(0x7fff_ffff_ffff_ffff, 9));
    assert!(BranchCondition::NotNegativeAndLink(0).decide(0, 9));
    assert!(!BranchCondition::NotNegativeAndLink(0).decide(0x8000_0000_0000_0000, 9));
}

#[test]
fn immediate_instructions() {
    let mut cpu = cpu(&[
        imm(LUI, 0, 1, 0x1234),
        imm(ORI, 1, 1, 0x8000),
        imm(ANDI, 1, 2, 0xff00),
        imm(ADDIU, 1, 3, 0xffff),
        imm(ADDIU, 0, 4, 0x8000),
        imm(LUI, 0, 5, 0xbeef),
        imm(LUI, 0, 0, 0xffff),
        imm(ADDI, 0, 6, 0xfffe),
    ]);
    run(&mut cpu, 8);
    assert_eq!(cpu.reg.get_gpr_val(1), 0x1234_8000);
    assert_eq!(cpu.reg.get_gpr_val(2), 0x8000);
    assert_eq!(cpu.reg.get_gpr_val(3), 0x1234_7fff);
    assert_eq!(cpu.reg.get_gpr_val(4), 0xffff_ffff_ffff_8000);
    assert_eq!(cpu.reg.get_gpr_val(5), 0xffff_ffff_beef_0000);
    assert_eq!(cpu.reg.get_gpr_val(0), 0);
    assert_eq!(cpu.reg.get_gpr_val(6), 0xffff_ffff_ffff_fffe);
    assert_eq!(cpu.reg.reg_pc, RESET + 32);
    assert_eq!(cpu.pipelines.len(), 0);
    assert_eq!(cpu.pcycle_phase, 0);
}

#[test]
fn register_instructions() {
    let mut cpu = cpu(&[
        imm(LUI, 0, 1, 0x7fff),
        imm(ORI, 1, 1, 0xffff),
        imm(ORI, 0, 2, 1),
        special(1, 2, 3, 0, 0b100001),
        special(0, 2, 4, 0, 0b100011),
        special(0, 2, 5, 0, 0b101011),
        special(2, 0, 6, 0, 0b101011),
        special(1, 2, 7, 0, 0b100101),
        special(1, 2, 8, 0, 0b100100),
        special(1, 2, 9, 0, 0b100110),
        special(3, 4, 10, 0, 0b100100),
    ]);
    run(&mut cpu, 11);
    assert_eq!(cpu.reg.get_gpr_val(1), 0x7fff_ffff);
    assert_eq!(cpu.reg.get_gpr_val(3), 0xffff_ffff_8000_0000);
    assert_eq!(cpu.reg.get_gpr_val(4), 0xffff_ffff_ffff_ffff);
    assert_eq!(cpu.reg.get_gpr_val(5), 1);
    assert_eq!(cpu.reg.get_gpr_val(6), 0);
    assert_eq!(cpu.reg.get_gpr_val(7), 0x7fff_ffff);
    assert_eq!(cpu.reg.get_gpr_val(8), 1);
    assert_eq!(cpu.reg.get_gpr_val(9), 0x7fff_fffe);
    assert_eq!(cpu.reg.get_gpr_val(10), 0xffff_ffff_8000_0000);
}

#[test]
fn shift_instructions() {
    let mut cpu = cpu(&[
        imm(LUI, 0, 1, 0x4000),
        special(0, 1, 2, 1, 0b000000),
        special(0, 2, 3, 4, 0b000010),
        special(0, 2, 4, 0, 0b000010),
        imm(ORI, 0, 5, 0x0023),
        imm(ORI, 0, 6, 0x0001),
        special(0, 6, 7, 5, 0b000100),
        special(0, 2, 8, 5, 0b000110),
        special(0, 1, 9, 2, 0b000000),
    ]);
    run(&mut cpu, 9);
    assert_eq!(cpu.reg.get_gpr_val(1), 0x4000_0000);
    assert_eq!(cpu.reg.get_gpr_val(2), 0xffff_ffff_8000_0000);
    assert_eq!(cpu.reg.get_gpr_val(3), 0x0800_0000);
    assert_eq!(cpu.reg.get_gpr_val(4), 0xffff_ffff_8000_0000);
    assert_eq!(cpu.reg.get_gpr_val(7), 0x8);
    assert_eq!(cpu.reg.get_gpr_val(8), 0x1000_0000);
    assert_eq!(cpu.reg.get_gpr_val(9), 0);
}

#[test]
fn multiplication_and_moves_from_hi_and_lo() {
    let mut cpu = cpu(&[
        imm(LUI, 0, 1, 0x0001),
        special(1, 1, 0, 0, 0b011001),
        special(0, 0, 2, 0, 0b010000),
        special(0, 0, 3, 0, 0b010010),
        imm(ORI, 0, 4, 3),
        imm(ORI, 0, 5, 5),
        special(4, 5, 0, 0, 0b011001),
        special(0, 0, 6, 0, 0b010000),
        special(0, 0, 7, 0, 0b010010),
        imm(LUI, 0, 8, 0x8000),
        imm(ORI, 0, 9, 1),
        special(8, 9, 0, 0, 0b011001),
    ]);
    run(&mut cpu, 4);
    assert_eq!(cpu.reg.reg_hi, 1);
    assert_eq!(cpu.reg.reg_lo, 0);
    assert_eq!(cpu.reg.get_gpr_val(2), 1);
    assert_eq!(cpu.reg.get_gpr_val(3), 0);
    run(&mut cpu, 5);
    assert_eq!(cpu.reg.get_gpr_val(6), 0);
    assert_eq!(cpu.reg.get_gpr_val(7), 15);
    run(&mut cpu, 3);
    assert_eq!(cpu.reg.reg_lo, 0xffff_ffff_8000_0000);
    assert_eq!(cpu.reg.reg_hi, 0xffff_ffff_ffff_ffff);
}

#[test]
fn a_taken_branch_runs_its_delay_slot_first() {
    let mut cpu = cpu(&[
        imm(BEQ, 0, 0, 2),
        imm(ORI, 0, 1, 1),
        imm(ORI, 0, 2, 2),
        imm(ORI, 0, 3, 3),
    ]);
    run(&mut cpu, 1);
    assert_eq!(cpu.reg.get_gpr_val(1), 1);
    assert_eq!(cpu.reg.reg_pc, RESET + 12);
    run(&mut cpu, 1);
    assert_eq!(cpu.reg.get_gpr_val(2), 0);
    assert_eq!(cpu.reg.get_gpr_val(3), 3);
    assert_eq!(cpu.reg.reg_pc, RESET + 16);
}

#[test]
fn a_branch_that_is_not_taken_goes_on() {
    let mut cpu = cpu(&[imm(BNE, 0, 0, 2), imm(ORI, 0, 1, 1), imm(ORI, 0, 2, 2)]);
    run(&mut cpu, 1);
    assert_eq!(cpu.reg.get_gpr_val(1), 0);
    assert_eq!(cpu.reg.reg_pc, RESET + 4);
    run(&mut cpu, 2);
    assert_eq!(cpu.reg.get_gpr_val(1), 1);
    assert_eq!(cpu.reg.get_gpr_val(2), 2);
}

#[test]
fn a_backward_branch() {
    let mut cpu = cpu(&[
        imm(ORI, 0, 1, 1),
        imm(ORI, 0, 2, 2),
        imm(BNE, 1, 2, 0xfffd),
        imm(ORI, 0, 3, 3),
    ]);
    run(&mut cpu, 3);
    assert_eq!(cpu.reg.get_gpr_val(3), 3);
    assert_eq!(cpu.reg.reg_pc, RESET);
}

#[test]
fn the_branch_offset_is_shifted_inside_sixteen_bits() {
    let mut cpu = cpu(&[imm(BEQ, 0, 0, 0x4001), imm(ORI, 0, 1, 1)]);
    run(&mut cpu, 1);
    assert_eq!(cpu.reg.reg_pc, RESET + 4 + 4);
    assert_eq!(cpu.reg.get_gpr_val(1), 1);
}

#[test]
fn likely_branches_skip_the_delay_slot_when_not_taken() {
    let mut cpu = cpu(&[
        imm(BNEL, 0, 0, 2),
        imm(ORI, 0, 1, 1),
        imm(BEQL, 0, 0, 2),
        imm(ORI, 0, 2, 2),
        imm(ORI, 0, 3, 3),
        imm(ORI, 0, 4, 4),
    ]);
    run(&mut cpu, 1);
    assert_eq!(cpu.reg.reg_pc, RESET + 8);
    assert_eq!(cpu.reg.get_gpr_val(1), 0);
    run(&mut cpu, 1);
    assert_eq!(cpu.reg.get_gpr_val(2), 2);
    assert_eq!(cpu.reg.reg_pc, RESET + 20);
    run(&mut cpu, 1);
    assert_eq!(cpu.reg.get_gpr_val(3), 0);
    assert_eq!(cpu.reg.get_gpr_val(4), 4);
}

#[test]
fn the_linking_branch_leaves_its_return_address() {
    let mut cpu = cpu(&[
        imm(REGIMM, 0, 0b10001, 3),
        imm(ORI, 0, 1, 1),
        imm(ORI, 0, 2, 2),
        imm(ORI, 0, 3, 3),
        imm(ORI, 0, 4, 4),
    ]);
    run(&mut cpu, 1);
    assert_eq!(cpu.reg.get_gpr_val(31), RESET + 8);
    assert_eq!(cpu.reg.get_gpr_val(1), 1);
    assert_eq!(cpu.reg.reg_pc, RESET + 16);
}

#[test]
fn the_linking_branch_links_even_when_not_taken() {
    let mut cpu = cpu(&[
        imm(LUI, 0, 5, 0x8000),
        imm(REGIMM, 5, 0b10001, 3),
        imm(ORI, 0, 1, 1),
    ]);
    run(&mut cpu, 2);
    assert_eq!(cpu.reg.get_gpr_val(31), RESET + 12);
    assert_eq!(cpu.reg.get_gpr_val(1), 0);
    assert_eq!(cpu.reg.reg_pc, RESET + 8);
}

#[test]
fn the_linking_branch_tests_the_value_from_before_the_link() {
    let mut cpu = cpu(&[
        imm(LUI, 0, 31, 0x8000),
        imm(REGIMM, 31, 0b10001, 3),
        imm(ORI, 0, 1, 1),
    ]);
    run(&mut cpu, 2);
    assert_eq!(cpu.reg.get_gpr_val(31), RESET + 12);
    assert_eq!(cpu.reg.reg_pc, RESET + 8);
}

#[test]
fn jump_register() {
    let mut cpu = cpu(&[
        imm(LUI, 0, 1, 0xbfc0),
        imm(ORI, 1, 1, 0x0014),
        special(1, 0, 0, 0, 0b001000),
        imm(ORI, 0, 2, 2),
        imm(ORI, 0, 3, 3),
        imm(ORI, 0, 4, 4),
    ]);
    run(&mut cpu, 3);
    assert_eq!(cpu.reg.get_gpr_val(1), 0xffff_ffff_bfc0_0014);
    assert_eq!(cpu.reg.get_gpr_val(2), 2);
    assert_eq!(cpu.reg.reg_pc, RESET + 0x14);
    run(&mut cpu, 1);
    assert_eq!(cpu.reg.get_gpr_val(3), 0);
    assert_eq!(cpu.reg.get_gpr_val(4), 4);
}

#[test]
fn jump_register_to_a_misaligned_address_faults() {
    let mut cpu = cpu(&[imm(ORI, 0, 1, 0x0102), special(1, 0, 0, 0, 0b001000)]);
    run(&mut cpu, 1);
    assert_eq!(cpu.run_instruction(), Err(Fault::Address { address: 0x0102 }));
    assert_eq!(cpu.reg.reg_pc, RESET + 4);
}

#[test]
fn a_transfer_inside_a_delay_slot_faults_and_changes_nothing() {
    let mut cpu = cpu(&[
        imm(REGIMM, 0, 0b10001, 4),
        imm(BEQ, 0, 0, 1),
        imm(ORI, 0, 1, 1),
    ]);
    let before = cpu.reg;
    assert_eq!(
        cpu.run_instruction(),
        Err(Fault::UnsupportedOperation { address: RESET + 20, value: RESET + 24 })
    );
    assert_eq!(cpu.reg.reg_pc, RESET);
    assert_eq!(cpu.reg.reg_gprs, before.reg_gprs);
    assert_eq!(cpu.reg.get_gpr_val(31), 0);
}

#[test]
fn a_branch_that_is_not_taken_may_sit_in_a_delay_slot() {
    let mut cpu = cpu(&[imm(BEQ, 0, 0, 3), imm(BNE, 0, 0, 1), imm(ORI, 0, 1, 1)]);
    run(&mut cpu, 1);
    assert_eq!(cpu.reg.reg_pc, RESET + 16);
}

#[test]
fn store_and_load_word() {
    let mut cpu = cpu(&[
        imm(LUI, 0, 1, 0xa000),
        imm(ORI, 0, 2, 0xbeef),
        imm(LUI, 0, 3, 0xdead),
        special(3, 2, 4, 0, 0b100101),
        imm(SW, 1, 4, 0x0100),
        imm(LW, 1, 5, 0x0100),
        imm(ORI, 1, 6, 0x0200),
        imm(SW, 6, 2, 0xff04),
        imm(LW, 1, 7, 0x0104),
    ]);
    run(&mut cpu, 5);
    assert_eq!(cpu.reg.get_gpr_val(4), 0xffff_ffff_dead_beef);
    assert_eq!(&cpu.bus.rdram.mem[0x100..0x104], &[0xde, 0xad, 0xbe, 0xef]);
    run(&mut cpu, 1);
    assert_eq!(cpu.reg.get_gpr_val(5), 0xffff_ffff_dead_beef);
    run(&mut cpu, 3);
    assert_eq!(&cpu.bus.rdram.mem[0x104..0x108], &[0x00, 0x00, 0xbe, 0xef]);
    assert_eq!(cpu.reg.get_gpr_val(7), 0xbeef);
}

#[test]
fn misaligned_load_and_store_fault() {
    let mut cpu = cpu(&[imm(LUI, 0, 1, 0xa000), imm(LW, 1, 5, 0x0101), imm(SW, 1, 5, 0x0102)]);
    run(&mut cpu, 1);
    assert_eq!(
        cpu.run_instruction(),
        Err(Fault::Address { address: 0xffff_ffff_a000_0101 })
    );
    assert_eq!(cpu.reg.reg_pc, RESET + 4);
    cpu.reg.reg_pc = RESET + 8;
    assert_eq!(
        cpu.run_instruction(),
        Err(Fault::Address { address: 0xffff_ffff_a000_0102 })
    );
}

#[test]
fn load_outside_kseg1_faults() {
    let mut cpu = cpu(&[imm(LW, 0, 5, 0x0100)]);
    assert_eq!(cpu.run_instruction(), Err(Fault::Address { address: 0x0100 }));
    assert_eq!(cpu.reg.reg_pc, RESET);
}

#[test]
fn store_to_the_boot_rom_faults() {
    let mut cpu = cpu(&[imm(LUI, 0, 1, 0xbfc0), imm(SW, 1, 1, 0x0010)]);
    run(&mut cpu, 1);
    assert_eq!(
        cpu.run_instruction(),
        Err(Fault::UnsupportedOperation { address: 0x10, value: 0xbfc0_0000 })
    );
}

#[test]
fn add_immediate_faults_on_overflow() {
    let mut cpu = cpu(&[
        imm(LUI, 0, 1, 0x7fff),
        imm(ORI, 1, 1, 0xffff),
        imm(ADDI, 1, 2, 1),
        imm(ADDI, 1, 3, 0xffff),
        imm(LUI, 0, 4, 0x8000),
        imm(ADDI, 4, 5, 0xffff),
    ]);
    run(&mut cpu, 2);
    assert_eq!(
        cpu.run_instruction(),
        Err(Fault::UnsupportedOperation {
            address: imm(ADDI, 1, 2, 1) as u64,
            value: 0x8000_0000
        })
    );
    assert_eq!(cpu.reg.get_gpr_val(2), 0);
    cpu.reg.reg_pc = RESET + 12;
    run(&mut cpu, 2);
    assert_eq!(cpu.reg.get_gpr_val(3), 0x7fff_fffe);
    assert_eq!(
        cpu.run_instruction(),
        Err(Fault::UnsupportedOperation {
            address: imm(ADDI, 4, 5, 0xffff) as u64,
            value: 0xffff_ffff_7fff_ffff
        })
    );
}

#[test]
fn move_to_the_coprocessor() {
    let mtc0_config = (0b010000 << 26) | (0b00100 << 21) | (1 << 16) | (16 << 11);
    let mtc0_other = (0b010000 << 26) | (0b00100 << 21) | (1 << 16) | (9 << 11);
    let not_mtc0 = (0b010000 << 26) | (0b00000 << 21) | (1 << 16) | (16 << 11);
    let mut cpu = cpu(&[imm(LUI, 0, 1, 0x0600), mtc0_config, mtc0_other, not_mtc0]);
    run(&mut cpu, 2);
    assert_eq!(cpu.cp0.reg_config.transfer_data_pattern, TransferDataPattern::DxxDxx);
    assert_eq!(
        cpu.run_instruction(),
        Err(Fault::UnsupportedOperation { address: 9, value: 0x0600_0000 })
    );
    cpu.reg.reg_pc = RESET + 12;
    assert_eq!(
        cpu.run_instruction(),
        Err(Fault::Decode { word: not_mtc0, opcode: 0b1111100000 })
    );
}

#[test]
fn undefined_instructions_fault() {
    let mut cpu = cpu(&[0x0800_0000, special(0, 0, 0, 0, 0b000001), imm(REGIMM, 0, 0, 0)]);
    assert_eq!(
        cpu.run_instruction(),
        Err(Fault::Decode { word: 0x0800_0000, opcode: 2 })
    );
    cpu.reg.reg_pc = RESET + 4;
    assert_eq!(cpu.run_instruction(), Err(Fault::Decode { word: 1, opcode: 1 }));
    cpu.reg.reg_pc = RESET + 8;
    assert_eq!(
        cpu.run_instruction(),
        Err(Fault::Decode { word: 0x0400_0000, opcode: 0 })
    );
    assert_eq!(cpu.reg.reg_pc, RESET + 8);
}

#[test]
fn a_fault_in_a_delay_slot_undoes_the_link() {
    let mut cpu = cpu(&[imm(REGIMM, 0, 0b10001, 4), 0x0800_0000]);
    assert_eq!(
        cpu.run_instruction(),
        Err(Fault::Decode { word: 0x0800_0000, opcode: 2 })
    );
    assert_eq!(cpu.reg.get_gpr_val(31), 0);
    assert_eq!(cpu.reg.reg_pc, RESET);
}

#[test]
fn fetch_outside_kseg1_faults() {
    let mut cpu = cpu(&[]);
    cpu.reg.reg_pc = 0x8000_0000;
    assert_eq!(cpu.run_instruction(), Err(Fault::Address { address: 0x8000_0000 }));
    assert_eq!(cpu.reg.reg_pc, 0x8000_0000);
}

#[test]
fn the_variable_shifts_take_their_amount_from_the_register_that_the_shift_field_names() {
    let mut cpu = cpu(&[
        imm(ORI, 0, 5, 0x0003),
        imm(ORI, 0, 3, 0x0010),
        imm(ORI, 0, 6, 0x0001),
        special(3, 6, 7, 5, 0b000100),
    ]);
    run(&mut cpu, 4);
    assert_eq!(cpu.reg.get_gpr_val(7), 0x8);
}
