use vstd::prelude::*;
use crate::cpu::physical_address::PAddr;
use crate::fault::Fault;

verus! {

/// First address of kseg1 in its canonical, sign-extended form.
pub const KSEG1_START: u64 = 0xffff_ffff_a000_0000;

/// A 64-bit virtual address as the processor issues it.
#[derive(Clone, Copy, Debug, PartialEq, Eq, Structural)]
pub struct VAddr(pub u64);

impl VAddr {
    /// Bits 31..29 of the address, which select the segment.
    pub open spec fn segment(&self) -> u64 {
        (self.0 >> 29) & 0b111
    }

    /// Whether the address lies in kseg1, the unmapped uncached segment.
    pub open spec fn is_kseg1(&self) -> bool {
        self.segment() == 0b101
    }

    /// The physical address behind a kseg1 address: the offset inside the
    /// 512 MiB segment.
    pub open spec fn paddr(&self) -> PAddr {
        PAddr((self.0 & 0x1fff_ffff) as u32)
    }

    /// What translation yields: the physical address for kseg1, an address
    /// fault carrying the virtual address for every other segment.
    pub open spec fn translated(&self) -> Result<PAddr, Fault> {
        if self.is_kseg1() {
            Ok(self.paddr())
        } else {
            Err(Fault::Address { address: self.0 })
        }
    }

    /// Translates the address.  Only kseg1 is supported: no TLB is modelled.
    pub fn to_paddr(&self) -> (r: Result<PAddr, Fault>)
        ensures
            r == self.translated(),
    {
        let addr_bit_values: u64 = (self.0 >> 29) & 0b111;
        if addr_bit_values == 0b101 {
            let v: u64 = self.0;
            assert(v & 0x1fff_ffff <= 0x1fff_ffff) by (bit_vector);
            Ok(PAddr((self.0 & 0x1fff_ffff) as u32))
        } else {
            Err(Fault::Address { address: self.0 })
        }
    }
}

impl Default for VAddr {
    fn default() -> (v: VAddr)
        ensures
            v == VAddr(0),
    {
        VAddr(0)
    }
}

/// Translates a virtual address given as a plain number to the physical
/// address as a plain number.
pub fn vaddr_to_paddr(vaddr: u64) -> (r: Result<u64, Fault>)
    ensures
        r == match VAddr(vaddr).translated() {
            Ok(paddr) => Ok::<u64, Fault>(paddr.0 as u64),
            Err(f) => Err::<u64, Fault>(f),
        },
{
    match VAddr(vaddr).to_paddr() {
        Ok(paddr) => Ok(paddr.0 as u64),
        Err(f) => Err(f),
    }
}

/// For a canonical kseg1 address the translation is the subtraction of the
/// segment's start: the physical address is the distance from `KSEG1_START`.
pub proof fn lemma_kseg1_is_offset_subtraction(v: VAddr)
    requires
        v.0 >= KSEG1_START,
        v.0 < KSEG1_START + 0x2000_0000,
    ensures
        v.is_kseg1(),
        v.translated() == Ok::<PAddr, Fault>(PAddr((v.0 - KSEG1_START) as u32)),
{
    let a: u64 = v.0;
    assert(a >= 0xffff_ffff_a000_0000 && a < 0xffff_ffff_c000_0000 ==> (a >> 29) & 0b111 == 0b101
        && (a & 0x1fff_ffff) == (a - 0xffff_ffff_a000_0000) as u64) by (bit_vector);
}

/// Translation is decided by bits 31..29 alone: an address whose segment
/// bits differ from `0b101` yields an address fault, whatever its other bits.
pub proof fn lemma_other_segments_fault(v: VAddr)
    requires
        v.segment() != 0b101,
    ensures
        v.translated() == Err::<PAddr, Fault>(Fault::Address { address: v.0 }),
{
}

/// The physical address of a translated address lies in the low 512 MiB.
pub proof fn lemma_paddr_below_512_mib(v: VAddr)
    ensures
        v.paddr().0 < 0x2000_0000,
        v.paddr().0 as u64 == v.0 & 0x1fff_ffff,
{
    let a: u64 = v.0;
    assert(a & 0x1fff_ffff < 0x2000_0000) by (bit_vector);
}

} // verus!
