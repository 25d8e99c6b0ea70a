use vstd::prelude::*;
use crate::cpu::physical_address::PAddr;
use crate::fault::Fault;

verus! {

pub const RDRAM_MEM_START: u32 = 0x0000_0000;
pub const RDRAM_MEM_SIZE: u32 = 0x03F0_0000;
pub const RDRAM_MEM_END: u32 = 0x03EF_FFFF;

pub const RDRAM_REG_START: u32 = 0x03F0_0000;
pub const RDRAM_REG_SIZE: u32 = 0x0010_0000;
pub const RDRAM_REG_END: u32 = 0x03FF_FFFF;

pub const SP_REG_BASE: u32 = 0x0400_0000;
pub const SP_REG_END: u32 = 0x040F_FFFF;

pub const DPC_REG_BASE: u32 = 0x0410_0000;
pub const DPC_REG_END: u32 = 0x041F_FFFF;

pub const VI_REG_BASE: u32 = 0x0440_0000;
pub const VI_REG_END: u32 = 0x044F_FFFF;

pub const AI_REG_BASE: u32 = 0x0450_0000;
pub const AI_REG_END: u32 = 0x045F_FFFF;

pub const PI_REG_BASE: u32 = 0x0460_0000;
pub const PI_REG_END: u32 = 0x046F_FFFF;

pub const SI_REG_BASE: u32 = 0x0480_0000;
pub const SI_REG_END: u32 = 0x048F_FFFF;

pub const CARTDOM1_ADDR1_START: u32 = 0x0600_0000;
pub const CARTDOM1_ADDR1_END: u32 = 0x07ff_ffff;

pub const CARTDOM1_ADDR2_START: u32 = 0x1000_0000;
pub const CARTDOM1_ADDR2_END: u32 = 0x1f39_ffff;

pub const PIF_START: u32 = 0x1fc0_0000;
pub const PIF_END: u32 = 0x1fc0_07ff;

/// A physical address resolved to its window: the variant names the
/// window, the payload is the offset from the window's first address.
#[derive(Clone, Copy, Debug, PartialEq, Eq, Structural)]
pub enum Addr {
    RDRAM(u32),
    RDRAMREG(u32),
    PIF(u32),
    RSP(u32),
    PERIPHERAL(u32),
    VIDEO(u32),
    AUDIO(u32),
    SERIAL(u32),
    CARTDOM11(u32),
    CARTDOM12(u32),
    DPC(u32),
}

impl Addr {
    /// First physical address of the window.
    pub open spec fn start(&self) -> u32 {
        match *self {
            Addr::RDRAM(_) => RDRAM_MEM_START,
            Addr::RDRAMREG(_) => RDRAM_REG_START,
            Addr::PIF(_) => PIF_START,
            Addr::RSP(_) => SP_REG_BASE,
            Addr::PERIPHERAL(_) => PI_REG_BASE,
            Addr::VIDEO(_) => VI_REG_BASE,
            Addr::AUDIO(_) => AI_REG_BASE,
            Addr::SERIAL(_) => SI_REG_BASE,
            Addr::CARTDOM11(_) => CARTDOM1_ADDR1_START,
            Addr::CARTDOM12(_) => CARTDOM1_ADDR2_START,
            Addr::DPC(_) => DPC_REG_BASE,
        }
    }

    /// Last physical address of the window.
    pub open spec fn end(&self) -> u32 {
        match *self {
            Addr::RDRAM(_) => RDRAM_MEM_END,
            Addr::RDRAMREG(_) => RDRAM_REG_END,
            Addr::PIF(_) => PIF_END,
            Addr::RSP(_) => SP_REG_END,
            Addr::PERIPHERAL(_) => PI_REG_END,
            Addr::VIDEO(_) => VI_REG_END,
            Addr::AUDIO(_) => AI_REG_END,
            Addr::SERIAL(_) => SI_REG_END,
            Addr::CARTDOM11(_) => CARTDOM1_ADDR1_END,
            Addr::CARTDOM12(_) => CARTDOM1_ADDR2_END,
            Addr::DPC(_) => DPC_REG_END,
        }
    }

    /// Offset from the window's first address.
    pub open spec fn offset(&self) -> u32 {
        match *self {
            Addr::RDRAM(o) => o,
            Addr::RDRAMREG(o) => o,
            Addr::PIF(o) => o,
            Addr::RSP(o) => o,
            Addr::PERIPHERAL(o) => o,
            Addr::VIDEO(o) => o,
            Addr::AUDIO(o) => o,
            Addr::SERIAL(o) => o,
            Addr::CARTDOM11(o) => o,
            Addr::CARTDOM12(o) => o,
            Addr::DPC(o) => o,
        }
    }

    /// Whether this value is the location of physical address `addr`: the
    /// address lies in the window and the payload is its offset there.
    pub open spec fn locates(&self, addr: u32) -> bool {
        &&& self.start() <= addr
        &&& addr <= self.end()
        &&& self.offset() == addr - self.start()
    }
}

/// The location of a physical address, or the address fault that an
/// address outside every window raises.
pub open spec fn located(addr: u32) -> Result<Addr, Fault> {
    if addr <= RDRAM_MEM_END {
        Ok(Addr::RDRAM((addr - RDRAM_MEM_START) as u32))
    } else if addr <= RDRAM_REG_END {
        Ok(Addr::RDRAMREG((addr - RDRAM_REG_START) as u32))
    } else if addr <= SP_REG_END {
        Ok(Addr::RSP((addr - SP_REG_BASE) as u32))
    } else if addr <= DPC_REG_END {
        Ok(Addr::DPC((addr - DPC_REG_BASE) as u32))
    } else if VI_REG_BASE <= addr <= VI_REG_END {
        Ok(Addr::VIDEO((addr - VI_REG_BASE) as u32))
    } else if AI_REG_BASE <= addr <= AI_REG_END {
        Ok(Addr::AUDIO((addr - AI_REG_BASE) as u32))
    } else if PI_REG_BASE <= addr <= PI_REG_END {
        Ok(Addr::PERIPHERAL((addr - PI_REG_BASE) as u32))
    } else if SI_REG_BASE <= addr <= SI_REG_END {
        Ok(Addr::SERIAL((addr - SI_REG_BASE) as u32))
    } else if CARTDOM1_ADDR1_START <= addr <= CARTDOM1_ADDR1_END {
        Ok(Addr::CARTDOM11((addr - CARTDOM1_ADDR1_START) as u32))
    } else if CARTDOM1_ADDR2_START <= addr <= CARTDOM1_ADDR2_END {
        Ok(Addr::CARTDOM12((addr - CARTDOM1_ADDR2_START) as u32))
    } else if PIF_START <= addr <= PIF_END {
        Ok(Addr::PIF((addr - PIF_START) as u32))
    } else {
        Err(Fault::Address { address: addr as u64 })
    }
}

/// Resolves a physical address to its window and offset.  There is no
/// catch-all window: an address that no window holds is an address fault.
pub fn map_addr(addr: PAddr) -> (r: Result<Addr, Fault>)
    ensures
        r == located(addr.0),
        match r {
            Ok(a) => a.locates(addr.0),
            Err(f) => f == (Fault::Address { address: addr.0 as u64 }) && forall|a: Addr|
                !a.locates(addr.0),
        },
{
    let a: u32 = addr.0;
    if a <= RDRAM_MEM_END {
        Ok(Addr::RDRAM(a - RDRAM_MEM_START))
    } else if a <= RDRAM_REG_END {
        Ok(Addr::RDRAMREG(a - RDRAM_REG_START))
    } else if a <= SP_REG_END {
        Ok(Addr::RSP(a - SP_REG_BASE))
    } else if a <= DPC_REG_END {
        Ok(Addr::DPC(a - DPC_REG_BASE))
    } else if VI_REG_BASE <= a && a <= VI_REG_END {
        Ok(Addr::VIDEO(a - VI_REG_BASE))
    } else if AI_REG_BASE <= a && a <= AI_REG_END {
        Ok(Addr::AUDIO(a - AI_REG_BASE))
    } else if PI_REG_BASE <= a && a <= PI_REG_END {
        Ok(Addr::PERIPHERAL(a - PI_REG_BASE))
    } else if SI_REG_BASE <= a && a <= SI_REG_END {
        Ok(Addr::SERIAL(a - SI_REG_BASE))
    } else if CARTDOM1_ADDR1_START <= a && a <= CARTDOM1_ADDR1_END {
        Ok(Addr::CARTDOM11(a - CARTDOM1_ADDR1_START))
    } else if CARTDOM1_ADDR2_START <= a && a <= CARTDOM1_ADDR2_END {
        Ok(Addr::CARTDOM12(a - CARTDOM1_ADDR2_START))
    } else if PIF_START <= a && a <= PIF_END {
        Ok(Addr::PIF(a - PIF_START))
    } else {
        Err(Fault::Address { address: a as u64 })
    }
}

/// The windows do not overlap: a physical address has at most one location.
pub proof fn lemma_windows_disjoint(a: Addr, b: Addr, addr: u32)
    requires
        a.locates(addr),
        b.locates(addr),
    ensures
        a == b,
{
}

/// An address resolves to a location exactly when that location holds it,
/// and faults exactly when no window holds it.
pub proof fn lemma_located_iff(addr: u32, a: Addr)
    ensures
        located(addr) == Ok::<Addr, Fault>(a) <==> a.locates(addr),
        located(addr) is Err <==> forall|b: Addr| !b.locates(addr),
        located(addr) is Err ==> located(addr) == Err::<Addr, Fault>(
            Fault::Address { address: addr as u64 },
        ),
{
    if located(addr) is Ok {
        let l = located(addr).unwrap();
        assert(l.locates(addr));
    }
}

/// An address strictly between two neighbouring windows is in no window.
pub proof fn lemma_gaps_fault(addr: u32)
    requires
        DPC_REG_END < addr < VI_REG_BASE || PI_REG_END < addr < SI_REG_BASE || SI_REG_END < addr
            < CARTDOM1_ADDR1_START || CARTDOM1_ADDR1_END < addr < CARTDOM1_ADDR2_START
            || CARTDOM1_ADDR2_END < addr < PIF_START || PIF_END < addr,
    ensures
        located(addr) == Err::<Addr, Fault>(Fault::Address { address: addr as u64 }),
{
}

} // verus!
