//! Cycle-level core of a 64-bit MIPS console emulator.
//!
//! The crate holds the instruction decoder with its opcode tables, the
//! register file and the hazard record that forwards results between
//! instructions in flight, the five-stage pipeline and the processor that
//! drives it one clock phase at a time, kseg1 address translation, and the
//! physical address router with the register blocks and memories behind
//! it.  Beside the pipeline the processor can run one instruction as a
//! whole, with its delay slot.
//!
//! Every fatal condition of the machine is reported as a `Fault` value: no
//! function of this crate panics.  Each type has a view as plain
//! mathematical values, and each function states over those views what it
//! returns and what it changes.

pub mod fault;
pub mod byte_order;
pub mod memory_map;
pub mod interface;
pub mod bus;
pub mod cpu;
pub mod n64;
pub mod debugger;
