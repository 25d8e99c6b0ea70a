use vstd::prelude::*;
use crate::cpu::opcode::Type;

verus! {

pub const NUM_GPREG: usize = 32;
pub const NUM_FPREG: usize = 32;

/// The register file: the general-purpose registers, the floating-point
/// registers as raw bit patterns, the program counter and the special
/// registers.
#[derive(Clone, Copy, Debug)]
pub struct Registers {
    pub reg_gprs: [u64; 32],
    pub reg_fprs: [u64; 32],
    pub reg_pc: u64,
    pub reg_hi: u64,
    pub reg_lo: u64,
    pub reg_llbit: bool,
    pub reg_fcr0: u32,
    pub reg_fcr31: u32,
}

/// The register file as plain values.
pub struct RegistersState {
    pub gprs: Seq<u64>,
    pub fprs: Seq<u64>,
    pub pc: u64,
    pub hi: u64,
    pub lo: u64,
    pub llbit: bool,
    pub fcr0: u32,
    pub fcr31: u32,
}

impl View for Registers {
    type V = RegistersState;

    open spec fn view(&self) -> RegistersState {
        RegistersState {
            gprs: self.reg_gprs@,
            fprs: self.reg_fprs@,
            pc: self.reg_pc,
            hi: self.reg_hi,
            lo: self.reg_lo,
            llbit: self.reg_llbit,
            fcr0: self.reg_fcr0,
            fcr31: self.reg_fcr31,
        }
    }
}

impl RegistersState {
    /// There are 32 registers of each kind.
    pub open spec fn wf(&self) -> bool {
        &&& self.gprs.len() == NUM_GPREG
        &&& self.fprs.len() == NUM_FPREG
    }

    /// Everything zero.
    pub open spec fn zeroed() -> RegistersState {
        RegistersState {
            gprs: Seq::new(NUM_GPREG as nat, |i: int| 0u64),
            fprs: Seq::new(NUM_FPREG as nat, |i: int| 0u64),
            pc: 0,
            hi: 0,
            lo: 0,
            llbit: false,
            fcr0: 0,
            fcr31: 0,
        }
    }

    /// The value that general-purpose register `index` reads as.  Register
    /// 0 is hard-wired to zero.
    pub open spec fn read(&self, index: int) -> u64 {
        if index == 0 {
            0
        } else {
            self.gprs[index]
        }
    }

    /// The register file after a write of `value` to general-purpose
    /// register `index`.  A write to register 0 changes nothing.
    pub open spec fn written(&self, index: int, value: u64) -> RegistersState {
        if index == 0 {
            *self
        } else {
            RegistersState { gprs: self.gprs.update(index, value), ..*self }
        }
    }

    /// The register file with the program counter replaced.
    pub open spec fn with_pc(&self, pc: u64) -> RegistersState {
        RegistersState { pc, ..*self }
    }
}

impl Default for Registers {
    fn default() -> (r: Registers)
        ensures
            r@ == RegistersState::zeroed(),
    {
        let r = Registers {
            reg_gprs: [0; 32],
            reg_fprs: [0; 32],
            reg_pc: 0,
            reg_hi: 0,
            reg_lo: 0,
            reg_llbit: false,
            reg_fcr0: 0,
            reg_fcr31: 0,
        };
        assert(r@.gprs =~= RegistersState::zeroed().gprs);
        assert(r@.fprs =~= RegistersState::zeroed().fprs);
        r
    }
}

impl Registers {
    /// Reads general-purpose register `reg`.  Register 0 reads as zero,
    /// whatever was written to it.
    pub fn get_gpr_val(&self, reg: usize) -> (value: u64)
        requires
            reg < NUM_GPREG,
        ensures
            value == self@.read(reg as int),
    {
        if reg == 0 {
            0
        } else {
            self.reg_gprs[reg]
        }
    }

    /// Writes general-purpose register `reg`.  Register 0 ignores the
    /// write.  The value is stored as given: a producer of a 32-bit result
    /// sign-extends it before the write.
    pub fn set_gpr_val(&mut self, reg: usize, value: u64)
        requires
            reg < NUM_GPREG,
        ensures
            final(self)@ == old(self)@.written(reg as int, value),
    {
        if reg != 0 {
            self.reg_gprs[reg] = value;
        }
    }
}

/// A register other than register 0 reads as the value last written to
/// it; register 0 reads as zero before and after any write, and a write to
/// it leaves the whole file unchanged.
pub proof fn lemma_write_then_read(s: RegistersState, index: int, value: u64)
    requires
        s.wf(),
        0 <= index < NUM_GPREG,
    ensures
        s.written(index, value).wf(),
        index != 0 ==> s.written(index, value).read(index) == value,
        s.written(0, value) == s,
        s.read(0) == 0,
        s.written(index, value).read(0) == 0,
{
}

/// A write changes no register but the one it names.
pub proof fn lemma_write_keeps_others(s: RegistersState, index: int, value: u64, other: int)
    requires
        s.wf(),
        0 <= index < NUM_GPREG,
        0 <= other < NUM_GPREG,
        other != index,
    ensures
        s.written(index, value).read(other) == s.read(other),
        s.written(index, value).pc == s.pc,
        s.written(index, value).hi == s.hi,
        s.written(index, value).lo == s.lo,
{
}

/// Which registers an instruction in flight names, in which role, and the
/// values it holds for them.  It serves the instruction's own execution
/// and, as the forwarding unit, hands its result to the next younger
/// instruction before the register file holds it.
#[derive(Clone, Copy, Debug, PartialEq, Eq, Structural)]
pub struct RegistersUsed {
    pub rtype: Type,
    pub rt: Option<usize>,
    pub rt_val: Option<u64>,
    pub rs: Option<usize>,
    pub rs_val: Option<u64>,
    pub rd: Option<usize>,
    pub rd_val: Option<u64>,
}

/// Whether `r` names nothing or a register index below 32.
pub open spec fn index_ok(r: Option<usize>) -> bool {
    match r {
        Some(i) => i < NUM_GPREG,
        None => true,
    }
}

/// The value read for an operand: the register's value where the operand
/// names one, `before` where it names none.
pub open spec fn operand_read(r: Option<usize>, before: Option<u64>, regs: RegistersState)
    -> Option<u64> {
    match r {
        Some(i) => Some(regs.read(i as int)),
        None => before,
    }
}

impl RegistersUsed {
    /// Every register that the record names exists.
    pub open spec fn wf(&self) -> bool {
        &&& index_ok(self.rt)
        &&& index_ok(self.rs)
        &&& index_ok(self.rd)
    }

    /// The record names exactly the registers of its shape.
    pub open spec fn shaped(&self) -> bool {
        match self.rtype {
            Type::ITYPE => self.rt is Some && self.rs is Some && self.rd is None,
            Type::RTYPE => self.rt is Some && self.rs is Some && self.rd is Some,
            Type::RTYPECP => self.rt is Some && self.rs is None && self.rd is Some,
            Type::JTYPE => self.rt is None && self.rs is None && self.rd is None,
        }
    }

    /// The record holds a value for every register that it names.
    pub open spec fn valued(&self) -> bool {
        &&& self.rt is Some ==> self.rt_val is Some
        &&& self.rs is Some ==> self.rs_val is Some
        &&& self.rd is Some ==> self.rd_val is Some
    }

    /// The record is that of its shape, names existing registers and holds
    /// a value for each.
    pub open spec fn ready(&self) -> bool {
        self.wf() && self.shaped() && self.valued()
    }

    /// The register that receives the instruction's result: `rt` for the
    /// immediate shape, `rd` for the register and coprocessor shapes, none
    /// for a jump.
    pub open spec fn output_register(&self) -> Option<usize> {
        match self.rtype {
            Type::RTYPE | Type::RTYPECP => self.rd,
            Type::ITYPE => self.rt,
            Type::JTYPE => None,
        }
    }

    /// The value that the record currently holds for its output register.
    pub open spec fn output_value(&self) -> Option<u64> {
        match self.rtype {
            Type::RTYPE | Type::RTYPECP => self.rd_val,
            Type::ITYPE => self.rt_val,
            Type::JTYPE => None,
        }
    }

    /// The record with the value of every register it names read from
    /// `regs`.
    pub open spec fn processed(&self, regs: RegistersState) -> RegistersUsed {
        RegistersUsed {
            rt_val: operand_read(self.rt, self.rt_val, regs),
            rs_val: operand_read(self.rs, self.rs_val, regs),
            rd_val: operand_read(self.rd, self.rd_val, regs),
            ..*self
        }
    }

    /// The record after forwarding from the next older instruction's
    /// record: a source (`rs` or `rt`) that is the older record's output
    /// register takes the older record's output value; everything else
    /// stays.
    pub open spec fn forwarded(&self, older: RegistersUsed) -> RegistersUsed {
        match older.output_register() {
            Some(reg) => RegistersUsed {
                rt_val: if self.rt == Some(reg) {
                    older.output_value()
                } else {
                    self.rt_val
                },
                rs_val: if self.rs == Some(reg) {
                    older.output_value()
                } else {
                    self.rs_val
                },
                ..*self
            },
            None => *self,
        }
    }

    /// The record with `value` in the slot of its output register.
    pub open spec fn holding_output(&self, value: u64) -> RegistersUsed {
        RegistersUsed {
            rt_val: match self.rtype {
                Type::ITYPE => Some(value),
                _ => self.rt_val,
            },
            rd_val: match self.rtype {
                Type::RTYPE | Type::RTYPECP => Some(value),
                _ => self.rd_val,
            },
            ..*self
        }
    }

    /// The unfilled record of an immediate-shape instruction: reads `rs`,
    /// writes `rt`.
    pub fn itype(rt: usize, rs: usize) -> (r: RegistersUsed)
        ensures
            r == (RegistersUsed {
                rtype: Type::ITYPE,
                rt: Some(rt),
                rs: Some(rs),
                rd: None,
                rt_val: None,
                rs_val: None,
                rd_val: None,
            }),
    {
        RegistersUsed {
            rtype: Type::ITYPE,
            rt: Some(rt),
            rs: Some(rs),
            rd: None,
            rt_val: None,
            rs_val: None,
            rd_val: None,
        }
    }

    /// The unfilled record of a register-shape instruction: reads `rs` and
    /// `rt`, writes `rd`.
    pub fn rtype(rt: usize, rs: usize, rd: usize) -> (r: RegistersUsed)
        ensures
            r == (RegistersUsed {
                rtype: Type::RTYPE,
                rt: Some(rt),
                rs: Some(rs),
                rd: Some(rd),
                rt_val: None,
                rs_val: None,
                rd_val: None,
            }),
    {
        RegistersUsed {
            rtype: Type::RTYPE,
            rt: Some(rt),
            rs: Some(rs),
            rd: Some(rd),
            rt_val: None,
            rs_val: None,
            rd_val: None,
        }
    }

    /// The unfilled record of a coprocessor-shape instruction: reads `rt`,
    /// writes the coprocessor register that `rd` names.
    pub fn rtypecp(rt: usize, rd: usize) -> (r: RegistersUsed)
        ensures
            r == (RegistersUsed {
                rtype: Type::RTYPECP,
                rt: Some(rt),
                rs: None,
                rd: Some(rd),
                rt_val: None,
                rs_val: None,
                rd_val: None,
            }),
    {
        RegistersUsed {
            rtype: Type::RTYPECP,
            rt: Some(rt),
            rs: None,
            rd: Some(rd),
            rt_val: None,
            rs_val: None,
            rd_val: None,
        }
    }

    /// The record of a jump-shape instruction, which names no register.
    pub fn jtype() -> (r: RegistersUsed)
        ensures
            r == (RegistersUsed {
                rtype: Type::JTYPE,
                rt: None,
                rs: None,
                rd: None,
                rt_val: None,
                rs_val: None,
                rd_val: None,
            }),
    {
        RegistersUsed {
            rtype: Type::JTYPE,
            rt: None,
            rs: None,
            rd: None,
            rt_val: None,
            rs_val: None,
            rd_val: None,
        }
    }

    /// Reads from the register file the value of every register that the
    /// record names.
    pub fn process(&mut self, reg: &Registers)
        requires
            old(self).wf(),
        ensures
            *final(self) == old(self).processed(reg@),
    {
        match self.rt {
            Some(r) => {
                self.rt_val = Some(reg.get_gpr_val(r));
            },
            None => {},
        }
        match self.rs {
            Some(r) => {
                self.rs_val = Some(reg.get_gpr_val(r));
            },
            None => {},
        }
        match self.rd {
            Some(r) => {
                self.rd_val = Some(reg.get_gpr_val(r));
            },
            None => {},
        }
    }

    /// Takes over the result of the next older instruction where this
    /// record reads the register that the older one writes.  This is the
    /// only hazard resolution: nothing stalls.
    pub fn process_forwarding(&mut self, regs: RegistersUsed)
        ensures
            *final(self) == old(self).forwarded(regs),
    {
        match regs.get_output_register() {
            Some(reg) => {
                match self.rt {
                    Some(reg2) => {
                        if reg == reg2 {
                            self.rt_val = regs.get_output_value();
                        }
                    },
                    None => {},
                }
                match self.rs {
                    Some(reg2) => {
                        if reg == reg2 {
                            self.rs_val = regs.get_output_value();
                        }
                    },
                    None => {},
                }
            },
            None => {},
        }
    }

    /// The record with `value` published as the instruction's result.
    pub fn with_output(&self, value: u64) -> (r: RegistersUsed)
        ensures
            r == self.holding_output(value),
    {
        RegistersUsed {
            rtype: self.rtype,
            rt: self.rt,
            rt_val: match self.rtype {
                Type::ITYPE => Some(value),
                _ => self.rt_val,
            },
            rs: self.rs,
            rs_val: self.rs_val,
            rd: self.rd,
            rd_val: match self.rtype {
                Type::RTYPE | Type::RTYPECP => Some(value),
                _ => self.rd_val,
            },
        }
    }

    /// The register that receives the instruction's result.
    pub fn get_output_register(&self) -> (r: Option<usize>)
        ensures
            r == self.output_register(),
    {
        match self.rtype {
            Type::RTYPE | Type::RTYPECP => self.rd,
            Type::ITYPE => self.rt,
            Type::JTYPE => None,
        }
    }

    /// The value held for the output register.
    pub fn get_output_value(&self) -> (r: Option<u64>)
        ensures
            r == self.output_value(),
    {
        match self.rtype {
            Type::RTYPE | Type::RTYPECP => self.rd_val,
            Type::ITYPE => self.rt_val,
            Type::JTYPE => None,
        }
    }

    /// The value held for `rt`.
    pub fn get_target_value(&self) -> (r: Option<u64>)
        ensures
            r == self.rt_val,
    {
        self.rt_val
    }
}

/// A published result is the record's output value, for every shape that
/// has an output register; the registers named and the shape stay.
pub proof fn lemma_output_is_published(r: RegistersUsed, value: u64)
    ensures
        r.holding_output(value).output_register() == r.output_register(),
        r.holding_output(value).rt == r.rt,
        r.holding_output(value).rs == r.rs,
        r.holding_output(value).rs_val == r.rs_val,
        r.rtype != Type::JTYPE ==> r.holding_output(value).output_value() == Some(value),
        r.rtype == Type::JTYPE ==> r.holding_output(value) == r,
{
}

/// Forwarding hands a younger instruction the result that the next older
/// one has published, before the register file holds it: a source that is
/// the older instruction's output register takes the published value, and a
/// source that is not keeps its own.
pub proof fn lemma_forwarding_delivers(younger: RegistersUsed, older: RegistersUsed, value: u64)
    requires
        older.rtype != Type::JTYPE,
        older.output_register() is Some,
    ensures
        younger.rs == older.output_register() ==> younger.forwarded(
            older.holding_output(value),
        ).rs_val == Some(value),
        younger.rt == older.output_register() ==> younger.forwarded(
            older.holding_output(value),
        ).rt_val == Some(value),
        younger.rs != older.output_register() ==> younger.forwarded(
            older.holding_output(value),
        ).rs_val == younger.rs_val,
        younger.rt != older.output_register() ==> younger.forwarded(
            older.holding_output(value),
        ).rt_val == younger.rt_val,
{
}

/// Forwarding changes nothing but the two source values.
pub proof fn lemma_forwarding_keeps_shape(younger: RegistersUsed, older: RegistersUsed)
    ensures
        younger.forwarded(older).rtype == younger.rtype,
        younger.forwarded(older).rt == younger.rt,
        younger.forwarded(older).rs == younger.rs,
        younger.forwarded(older).rd == younger.rd,
        younger.forwarded(older).rd_val == younger.rd_val,
        younger.wf() ==> younger.forwarded(older).wf(),
{
}

} // verus!
