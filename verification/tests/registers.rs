use gprust64::cpu::opcode::Type;
use gprust64::cpu::registers::{Registers, RegistersUsed};

#[test]
fn write_then_read_returns_the_value() {
    let mut regs = Registers::default();
    for index in 1..32usize {
        let value = 0x1111_0000_0000_0000u64 + index as u64;
        regs.set_gpr_val(index, value);
        assert_eq!(regs.get_gpr_val(index), value);
    }
    for index in 1..32usize {
        assert_eq!(regs.get_gpr_val(index), 0x1111_0000_0000_0000u64 + index as u64);
    }
}

#[test]
fn register_zero_is_hard_wired() {
    let mut regs = Registers::default();
    assert_eq!(regs.get_gpr_val(0), 0);
    regs.set_gpr_val(0, 0xdead_beef);
    assert_eq!(regs.get_gpr_val(0), 0);
    assert_eq!(regs.reg_gprs[0], 0);
    regs.reg_gprs[0] = 7;
    assert_eq!(regs.get_gpr_val(0), 0);
}

#[test]
fn write_keeps_the_other_registers() {
    let mut regs = Registers::default();
    regs.set_gpr_val(3, 33);
    regs.set_gpr_val(4, 44);
    assert_eq!(regs.get_gpr_val(3), 33);
    assert_eq!(regs.get_gpr_val(4), 44);
    assert_eq!(regs.get_gpr_val(5), 0);
    assert_eq!(regs.reg_pc, 0);
}

#[test]
fn write_stores_the_value_as_given() {
    let mut regs = Registers::default();
    regs.set_gpr_val(9, 0x0000_0000_8000_0000);
    assert_eq!(regs.get_gpr_val(9), 0x0000_0000_8000_0000);
}

#[test]
fn default_registers_are_zero() {
    let regs = Registers::default();
    assert_eq!(regs.reg_gprs, [0u64; 32]);
    assert_eq!(regs.reg_fprs, [0u64; 32]);
    assert_eq!(regs.reg_pc, 0);
    assert_eq!(regs.reg_hi, 0);
    assert_eq!(regs.reg_lo, 0);
    assert!(!regs.reg_llbit);
}

#[test]
fn record_constructors_name_the_registers_of_their_shape() {
    let i = RegistersUsed::itype(4, 5);
    assert_eq!(i.rtype, Type::ITYPE);
    assert_eq!((i.rt, i.rs, i.rd), (Some(4), Some(5), None));
    assert_eq!((i.rt_val, i.rs_val, i.rd_val), (None, None, None));
    let r = RegistersUsed::rtype(1, 2, 3);
    assert_eq!(r.rtype, Type::RTYPE);
    assert_eq!((r.rt, r.rs, r.rd), (Some(1), Some(2), Some(3)));
    let c = RegistersUsed::rtypecp(7, 12);
    assert_eq!(c.rtype, Type::RTYPECP);
    assert_eq!((c.rt, c.rs, c.rd), (Some(7), None, Some(12)));
    let j = RegistersUsed::jtype();
    assert_eq!(j.rtype, Type::JTYPE);
    assert_eq!((j.rt, j.rs, j.rd), (None, None, None));
}

#[test]
fn process_reads_every_named_register() {
    let mut regs = Registers::default();
    regs.set_gpr_val(1, 10);
    regs.set_gpr_val(2, 20);
    regs.set_gpr_val(3, 30);
    let mut r = RegistersUsed::rtype(1, 2, 3);
    r.process(&regs);
    assert_eq!((r.rt_val, r.rs_val, r.rd_val), (Some(10), Some(20), Some(30)));
    let mut i = RegistersUsed::itype(0, 2);
    i.process(&regs);
    assert_eq!((i.rt_val, i.rs_val, i.rd_val), (Some(0), Some(20), None));
    let mut j = RegistersUsed::jtype();
    j.process(&regs);
    assert_eq!((j.rt_val, j.rs_val, j.rd_val), (None, None, None));
}

#[test]
fn with_output_fills_the_slot_of_the_shape() {
    let mut regs = Registers::default();
    regs.set_gpr_val(1, 10);
    let mut i = RegistersUsed::itype(1, 2);
    i.process(&regs);
    let out = i.with_output(0x42);
    assert_eq!(out.rt_val, Some(0x42));
    assert_eq!(out.rs_val, Some(0));
    assert_eq!(out.rd_val, None);
    assert_eq!(out.get_output_register(), Some(1));
    assert_eq!(out.get_output_value(), Some(0x42));
    assert_eq!(out.get_target_value(), Some(0x42));

    let mut r = RegistersUsed::rtype(1, 2, 3);
    r.process(&regs);
    let out = r.with_output(0x43);
    assert_eq!(out.rt_val, Some(10));
    assert_eq!(out.rd_val, Some(0x43));
    assert_eq!(out.get_output_register(), Some(3));
    assert_eq!(out.get_output_value(), Some(0x43));
    assert_eq!(out.get_target_value(), Some(10));

    let c = RegistersUsed::rtypecp(1, 12).with_output(0x44);
    assert_eq!(c.rd_val, Some(0x44));
    assert_eq!(c.get_output_register(), Some(12));

    let j = RegistersUsed::jtype().with_output(0x45);
    assert_eq!(j, RegistersUsed::jtype());
    assert_eq!(j.get_output_register(), None);
    assert_eq!(j.get_output_value(), None);
}

#[test]
fn forwarding_overwrites_a_matching_source() {
    let regs = Registers::default();
    let mut older = RegistersUsed::itype(5, 0);
    older.process(&regs);
    let older = older.with_output(0x42);

    let mut younger = RegistersUsed::itype(6, 5);
    younger.process(&regs);
    assert_eq!(younger.rs_val, Some(0));
    younger.process_forwarding(older);
    assert_eq!(younger.rs_val, Some(0x42));
    assert_eq!(younger.rt_val, Some(0));
    assert_eq!(regs.get_gpr_val(5), 0);
}

#[test]
fn forwarding_overwrites_both_sources_when_both_match() {
    let regs = Registers::default();
    let mut older = RegistersUsed::rtype(1, 2, 5);
    older.process(&regs);
    let older = older.with_output(0x99);
    let mut younger = RegistersUsed::rtype(5, 5, 7);
    younger.process(&regs);
    younger.process_forwarding(older);
    assert_eq!(younger.rs_val, Some(0x99));
    assert_eq!(younger.rt_val, Some(0x99));
    assert_eq!(younger.rd_val, Some(0));
}

#[test]
fn forwarding_leaves_other_sources_alone() {
    let mut regs = Registers::default();
    regs.set_gpr_val(7, 77);
    regs.set_gpr_val(8, 88);
    let mut older = RegistersUsed::itype(5, 0);
    older.process(&regs);
    let older = older.with_output(0x42);
    let mut younger = RegistersUsed::itype(7, 8);
    younger.process(&regs);
    let before = younger;
    younger.process_forwarding(older);
    assert_eq!(younger, before);
}

#[test]
fn forwarding_from_a_jump_record_does_nothing() {
    let mut regs = Registers::default();
    regs.set_gpr_val(7, 77);
    let mut younger = RegistersUsed::itype(7, 7);
    younger.process(&regs);
    let before = younger;
    younger.process_forwarding(RegistersUsed::jtype());
    assert_eq!(younger, before);
}
