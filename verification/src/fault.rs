use vstd::prelude::*;

verus! {

/// A fatal condition of the emulated machine.  The run stops at the first
/// fault; nothing in the core recovers from one.
#[derive(Clone, Copy, Debug, PartialEq, Eq, Structural)]
pub enum Fault {
    /// The instruction word holds an opcode (primary, or secondary inside an
    /// escape group) that has no defined meaning.  `opcode` is the flattened
    /// opcode value that was looked up.
    Decode { word: u32, opcode: u16 },
    /// A virtual address outside the unmapped uncached segment, a physical
    /// address outside every window, a misaligned word address, or a read
    /// of a register offset that the owning block does not define.
    Address { address: u64 },
    /// An operation that the machine does not support: a write to a
    /// read-only window, to an undefined register of a block or of a
    /// reserved value; an arithmetic overflow, whose exception is not
    /// modelled, with the instruction word as the address; a transfer of
    /// control inside a delay slot, with the program counter as the
    /// address and the target as the value.
    UnsupportedOperation { address: u64, value: u64 },
}

} // verus!
