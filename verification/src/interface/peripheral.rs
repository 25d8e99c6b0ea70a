use vstd::prelude::*;
use crate::fault::Fault;

verus! {

pub const PI_STATUS_REG: u32 = 0x10;
pub const PI_DOMAIN1_REG: u32 = 0x14;
pub const PI_DOMAIN1_PWD_REG: u32 = 0x18;
pub const PI_DOMAIN1_PGS_REG: u32 = 0x1c;
pub const PI_DOMAIN1_RLS_REG: u32 = 0x20;

/// Register block of the peripheral interface.
#[derive(Clone, Copy, Debug, PartialEq, Eq, Structural)]
pub struct Peripheral {
    pub dma_busy: bool,
    pub io_busy: bool,
    pub error: bool,
    pub domain1_latency: u8,
    pub domain1_pulse_width: u8,
    pub domain1_page_size: u8,
    pub domain1_release: u8,
}

impl Default for Peripheral {
    fn default() -> (p: Peripheral)
        ensures
            p == Peripheral::default_state(),
    {
        Peripheral {
            dma_busy: false,
            io_busy: false,
            error: false,
            domain1_latency: 0,
            domain1_pulse_width: 0,
            domain1_page_size: 0,
            domain1_release: 0,
        }
    }
}

impl Peripheral {
    /// The power-on state: nothing busy, no error, every field zero.
    pub open spec fn default_state() -> Peripheral {
        Peripheral {
            dma_busy: false,
            io_busy: false,
            error: false,
            domain1_latency: 0,
            domain1_pulse_width: 0,
            domain1_page_size: 0,
            domain1_release: 0,
        }
    }

    /// The status word: DMA busy in bit 0, I/O busy in bit 1, error in bit 2.
    pub open spec fn status(&self) -> u32 {
        (if self.dma_busy {
            1u32
        } else {
            0u32
        }) | (if self.io_busy {
            2u32
        } else {
            0u32
        }) | (if self.error {
            4u32
        } else {
            0u32
        })
    }

    /// What a read of register offset `addr` yields in this state.
    pub open spec fn read_result(&self, addr: u32) -> Result<u32, Fault> {
        if addr == PI_STATUS_REG {
            Ok(self.status())
        } else if addr == PI_DOMAIN1_REG {
            Ok(self.domain1_latency as u32)
        } else if addr == PI_DOMAIN1_PWD_REG {
            Ok(self.domain1_pulse_width as u32)
        } else if addr == PI_DOMAIN1_PGS_REG {
            Ok(self.domain1_page_size as u32)
        } else if addr == PI_DOMAIN1_RLS_REG {
            Ok(self.domain1_release as u32)
        } else {
            Err(Fault::Address { address: addr as u64 })
        }
    }

    /// The state after a write of `value` to register offset `addr`, or the
    /// fault that the write raises.  A write to the status register is
    /// accepted and has no effect: reset and interrupt clearing are not
    /// modelled.
    pub open spec fn write_result(&self, addr: u32, value: u32) -> Result<Peripheral, Fault> {
        if addr == PI_STATUS_REG {
            Ok(*self)
        } else if addr == PI_DOMAIN1_REG {
            Ok(Peripheral { domain1_latency: (value & 0xff) as u8, ..*self })
        } else if addr == PI_DOMAIN1_PWD_REG {
            Ok(Peripheral { domain1_pulse_width: (value & 0xff) as u8, ..*self })
        } else if addr == PI_DOMAIN1_PGS_REG {
            Ok(Peripheral { domain1_page_size: (value & 0xf) as u8, ..*self })
        } else if addr == PI_DOMAIN1_RLS_REG {
            Ok(Peripheral { domain1_release: (value & 0x1) as u8, ..*self })
        } else {
            Err(Fault::UnsupportedOperation { address: addr as u64, value: value as u64 })
        }
    }

    /// Reads the register at offset `addr`.
    pub fn read(&self, addr: u32) -> (r: Result<u32, Fault>)
        ensures
            r == self.read_result(addr),
    {
        if addr == PI_STATUS_REG {
            Ok(self.read_status_reg())
        } else if addr == PI_DOMAIN1_REG {
            Ok(self.read_domain_reg())
        } else if addr == PI_DOMAIN1_PWD_REG {
            Ok(self.read_domain_pwd_reg())
        } else if addr == PI_DOMAIN1_PGS_REG {
            Ok(self.read_domain_pgs_reg())
        } else if addr == PI_DOMAIN1_RLS_REG {
            Ok(self.read_domain_rls_reg())
        } else {
            Err(Fault::Address { address: addr as u64 })
        }
    }

    /// Writes the register at offset `addr`.  A faulting write changes
    /// nothing.
    pub fn write(&mut self, addr: u32, value: u32) -> (r: Result<(), Fault>)
        ensures
            match old(self).write_result(addr, value) {
                Ok(after) => r is Ok && *final(self) == after,
                Err(f) => r == Err::<(), Fault>(f) && *final(self) == *old(self),
            },
    {
        if addr == PI_STATUS_REG {
            self.write_status_reg(value);
            Ok(())
        } else if addr == PI_DOMAIN1_REG {
            self.write_domain_reg(value);
            Ok(())
        } else if addr == PI_DOMAIN1_PWD_REG {
            self.write_domain_pwd_reg(value);
            Ok(())
        } else if addr == PI_DOMAIN1_PGS_REG {
            self.write_domain_pgs_reg(value);
            Ok(())
        } else if addr == PI_DOMAIN1_RLS_REG {
            self.write_domain_rls_reg(value);
            Ok(())
        } else {
            Err(Fault::UnsupportedOperation { address: addr as u64, value: value as u64 })
        }
    }

    fn read_domain_reg(&self) -> (r: u32)
        ensures
            r == self.domain1_latency as u32,
    {
        self.domain1_latency as u32
    }

    fn write_domain_reg(&mut self, value: u32)
        ensures
            *final(self) == (Peripheral { domain1_latency: (value & 0xff) as u8, ..*old(self) }),
    {
        proof {
            lemma_masks(value);
        }
        self.domain1_latency = (value & 0xff) as u8;
    }

    fn read_domain_pwd_reg(&self) -> (r: u32)
        ensures
            r == self.domain1_pulse_width as u32,
    {
        self.domain1_pulse_width as u32
    }

    fn write_domain_pwd_reg(&mut self, value: u32)
        ensures
            *final(self) == (Peripheral {
                domain1_pulse_width: (value & 0xff) as u8,
                ..*old(self)
            }),
    {
        proof {
            lemma_masks(value);
        }
        self.domain1_pulse_width = (value & 0xff) as u8;
    }

    fn read_domain_pgs_reg(&self) -> (r: u32)
        ensures
            r == self.domain1_page_size as u32,
    {
        self.domain1_page_size as u32
    }

    fn write_domain_pgs_reg(&mut self, value: u32)
        ensures
            *final(self) == (Peripheral { domain1_page_size: (value & 0xf) as u8, ..*old(self) }),
    {
        proof {
            lemma_masks(value);
        }
        self.domain1_page_size = (value & 0xf) as u8;
    }

    fn read_domain_rls_reg(&self) -> (r: u32)
        ensures
            r == self.domain1_release as u32,
    {
        self.domain1_release as u32
    }

    fn write_domain_rls_reg(&mut self, value: u32)
        ensures
            *final(self) == (Peripheral { domain1_release: (value & 0x1) as u8, ..*old(self) }),
    {
        proof {
            lemma_masks(value);
        }
        self.domain1_release = (value & 0x1) as u8;
    }

    fn read_status_reg(&self) -> (r: u32)
        ensures
            r == self.status(),
    {
        let mut temp: u32 = 0;
        if self.dma_busy {
            temp = temp | 1;
        }
        if self.io_busy {
            temp = temp | 2;
        }
        if self.error {
            temp = temp | 4;
        }
        assert(0u32 | 1u32 == 1u32 && 0u32 | 0u32 == 0u32 && 0u32 | 2u32 == 2u32 && 0u32 | 4u32
            == 4u32 && 1u32 | 0u32 == 1u32 && 2u32 | 0u32 == 2u32 && 3u32 | 0u32 == 3u32 && 1u32
            | 2u32 == 3u32) by (bit_vector);
        temp
    }

    fn write_status_reg(&mut self, value: u32)
        ensures
            *final(self) == *old(self),
    {
    }
}

/// A masked value is no larger than its mask.
proof fn lemma_masks(value: u32)
    by (bit_vector)
    ensures
        value & 0xff <= 0xff,
        value & 0xf <= 0xf,
        value & 0x1 <= 0x1,
{
}

} // verus!
