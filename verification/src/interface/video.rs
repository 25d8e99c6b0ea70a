use vstd::prelude::*;
use crate::fault::Fault;

verus! {

pub const VI_V_CURRENT_REG: u32 = 0x10;
pub const VI_INTR_REG: u32 = 0x0c;
pub const VI_H_START_REG: u32 = 0x24;

/// Register block of the video interface.
#[derive(Clone, Copy, Debug, PartialEq, Eq, Structural)]
pub struct Video {
    pub intr_half_line: u32,
    pub horizontal_video_start: u16,
    pub horizontal_video_end: u16,
    pub current_vertical_line: u16,
}

impl Default for Video {
    fn default() -> (v: Video)
        ensures
            v == Video::default_state(),
    {
        Video {
            intr_half_line: 0,
            horizontal_video_start: 0,
            horizontal_video_end: 0,
            current_vertical_line: 0,
        }
    }
}

impl Video {
    /// The power-on state: every field zero.
    pub open spec fn default_state() -> Video {
        Video {
            intr_half_line: 0,
            horizontal_video_start: 0,
            horizontal_video_end: 0,
            current_vertical_line: 0,
        }
    }

    /// The horizontal video register: start of active video in bits 25..16,
    /// end in bits 9..0.
    pub open spec fn h_video(&self) -> u32 {
        ((self.horizontal_video_start as u32) << 16) | (self.horizontal_video_end as u32)
    }

    /// What a read of register offset `addr` yields in this state.
    pub open spec fn read_result(&self, addr: u32) -> Result<u32, Fault> {
        if addr == VI_INTR_REG {
            Ok(self.intr_half_line)
        } else if addr == VI_H_START_REG {
            Ok(self.h_video())
        } else if addr == VI_V_CURRENT_REG {
            Ok((self.current_vertical_line & 0x3ff) as u32)
        } else {
            Err(Fault::Address { address: addr as u64 })
        }
    }

    /// The state after a write of `value` to register offset `addr`, or the
    /// fault that the write raises.  Every field is ten bits wide.
    pub open spec fn write_result(&self, addr: u32, value: u32) -> Result<Video, Fault> {
        if addr == VI_INTR_REG {
            Ok(Video { intr_half_line: value & 0x3ff, ..*self })
        } else if addr == VI_H_START_REG {
            Ok(
                Video {
                    horizontal_video_start: ((value >> 16) & 0x3ff) as u16,
                    horizontal_video_end: (value & 0x3ff) as u16,
                    ..*self
                },
            )
        } else if addr == VI_V_CURRENT_REG {
            Ok(Video { current_vertical_line: (value & 0x3ff) as u16, ..*self })
        } else {
            Err(Fault::UnsupportedOperation { address: addr as u64, value: value as u64 })
        }
    }

    /// Reads the register at offset `addr`.
    pub fn read(&self, addr: u32) -> (r: Result<u32, Fault>)
        ensures
            r == self.read_result(addr),
    {
        if addr == VI_INTR_REG {
            Ok(self.read_halfline())
        } else if addr == VI_H_START_REG {
            Ok(self.read_h_video())
        } else if addr == VI_V_CURRENT_REG {
            Ok(self.read_current_vertical_line() as u32)
        } else {
            Err(Fault::Address { address: addr as u64 })
        }
    }

    /// Writes the register at offset `addr`.  A faulting write changes
    /// nothing.
    pub fn write(&mut self, addr: u32, value: u32) -> (r: Result<(), Fault>)
        ensures
            match old(self).write_result(addr, value) {
                Ok(after) => r is Ok && *final(self) == after,
                Err(f) => r == Err::<(), Fault>(f) && *final(self) == *old(self),
            },
    {
        if addr == VI_INTR_REG {
            self.write_halfline(value);
            Ok(())
        } else if addr == VI_H_START_REG {
            self.write_h_video(value);
            Ok(())
        } else if addr == VI_V_CURRENT_REG {
            self.write_current_vertical_line(value);
            Ok(())
        } else {
            Err(Fault::UnsupportedOperation { address: addr as u64, value: value as u64 })
        }
    }

    fn read_halfline(&self) -> (r: u32)
        ensures
            r == self.intr_half_line,
    {
        self.intr_half_line
    }

    fn write_halfline(&mut self, value: u32)
        ensures
            *final(self) == (Video { intr_half_line: value & 0x3ff, ..*old(self) }),
    {
        self.intr_half_line = value & 0x3ff;
    }

    fn read_h_video(&self) -> (r: u32)
        ensures
            r == self.h_video(),
    {
        ((self.horizontal_video_start as u32) << 16) | (self.horizontal_video_end as u32)
    }

    fn write_h_video(&mut self, value: u32)
        ensures
            *final(self) == (Video {
                horizontal_video_start: ((value >> 16) & 0x3ff) as u16,
                horizontal_video_end: (value & 0x3ff) as u16,
                ..*old(self)
            }),
    {
        proof {
            lemma_masks(value);
        }
        self.horizontal_video_start = ((value >> 16) & 0x3ff) as u16;
        self.horizontal_video_end = (value & 0x3ff) as u16;
    }

    fn read_current_vertical_line(&self) -> (r: u16)
        ensures
            r == self.current_vertical_line & 0x3ff,
    {
        self.current_vertical_line & 0x3ff
    }

    fn write_current_vertical_line(&mut self, value: u32)
        ensures
            *final(self) == (Video {
                current_vertical_line: (value & 0x3ff) as u16,
                ..*old(self)
            }),
    {
        proof {
            lemma_masks(value);
        }
        self.current_vertical_line = (value & 0x3ff) as u16;
    }
}

/// The horizontal video register reads back what was written, each half
/// cut to ten bits.
pub proof fn lemma_h_video_written_is_read(v: Video, value: u32)
    ensures
        v.write_result(VI_H_START_REG, value).unwrap().read_result(VI_H_START_REG) == Ok::<
            u32,
            Fault,
        >(value & 0x03ff_03ff),
{
    assert((((((value >> 16) & 0x3ff) as u16) as u32) << 16) | (((value & 0x3ff) as u16) as u32)
        == value & 0x03ff_03ff) by (bit_vector);
}

/// A value masked to ten bits fits ten bits.
proof fn lemma_masks(value: u32)
    by (bit_vector)
    ensures
        (value >> 16) & 0x3ff <= 0x3ff,
        value & 0x3ff <= 0x3ff,
{
}

} // verus!
