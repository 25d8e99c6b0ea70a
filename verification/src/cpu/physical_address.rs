use vstd::prelude::*;

verus! {

/// An address in the flat 32-bit physical space that the bus decodes.
#[derive(Clone, Copy, Debug, PartialEq, Eq, Structural)]
pub struct PAddr(pub u32);

} // verus!
