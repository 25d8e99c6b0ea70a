use gprust64::cpu::physical_address::PAddr;
use gprust64::cpu::virtual_address::VAddr;
use gprust64::fault::Fault;
use gprust64::memory_map::{map_addr, Addr};

#[test]
fn reset_vector_translates_to_the_boot_rom() {
    assert_eq!(VAddr(0xFFFF_FFFF_BFC0_0000).to_paddr(), Ok(PAddr(0x1FC0_0000)));
}

#[test]
fn kseg1_translates_by_offset_subtraction() {
    assert_eq!(VAddr(0xFFFF_FFFF_A000_0000).to_paddr(), Ok(PAddr(0)));
    assert_eq!(VAddr(0xFFFF_FFFF_A460_0010).to_paddr(), Ok(PAddr(0x0460_0010)));
    assert_eq!(VAddr(0xFFFF_FFFF_BFFF_FFFF).to_paddr(), Ok(PAddr(0x1FFF_FFFF)));
}

#[test]
fn every_other_segment_faults() {
    for segment in 0..8u64 {
        let vaddr = 0xFFFF_FFFF_0000_0000u64 | (segment << 29) | 0x1234;
        let got = VAddr(vaddr).to_paddr();
        if segment == 0b101 {
            assert_eq!(got, Ok(PAddr(0x1234)));
        } else {
            assert_eq!(got, Err(Fault::Address { address: vaddr }));
        }
    }
    assert_eq!(VAddr(0).to_paddr(), Err(Fault::Address { address: 0 }));
    assert_eq!(
        VAddr(0xFFFF_FFFF_8000_0000).to_paddr(),
        Err(Fault::Address { address: 0xFFFF_FFFF_8000_0000 })
    );
    assert_eq!(
        VAddr(0xFFFF_FFFF_C000_0000).to_paddr(),
        Err(Fault::Address { address: 0xFFFF_FFFF_C000_0000 })
    );
}

#[test]
fn default_virtual_address_is_zero() {
    assert_eq!(VAddr::default(), VAddr(0));
}

#[test]
fn every_window_maps_its_first_and_last_address() {
    assert_eq!(map_addr(PAddr(0x0000_0000)), Ok(Addr::RDRAM(0)));
    assert_eq!(map_addr(PAddr(0x03EF_FFFF)), Ok(Addr::RDRAM(0x03EF_FFFF)));
    assert_eq!(map_addr(PAddr(0x03F0_0000)), Ok(Addr::RDRAMREG(0)));
    assert_eq!(map_addr(PAddr(0x03FF_FFFF)), Ok(Addr::RDRAMREG(0x000F_FFFF)));
    assert_eq!(map_addr(PAddr(0x0400_0000)), Ok(Addr::RSP(0)));
    assert_eq!(map_addr(PAddr(0x040F_FFFF)), Ok(Addr::RSP(0x000F_FFFF)));
    assert_eq!(map_addr(PAddr(0x0410_0000)), Ok(Addr::DPC(0)));
    assert_eq!(map_addr(PAddr(0x041F_FFFF)), Ok(Addr::DPC(0x000F_FFFF)));
    assert_eq!(map_addr(PAddr(0x0440_0000)), Ok(Addr::VIDEO(0)));
    assert_eq!(map_addr(PAddr(0x044F_FFFF)), Ok(Addr::VIDEO(0x000F_FFFF)));
    assert_eq!(map_addr(PAddr(0x0450_0000)), Ok(Addr::AUDIO(0)));
    assert_eq!(map_addr(PAddr(0x045F_FFFF)), Ok(Addr::AUDIO(0x000F_FFFF)));
    assert_eq!(map_addr(PAddr(0x0460_0000)), Ok(Addr::PERIPHERAL(0)));
    assert_eq!(map_addr(PAddr(0x046F_FFFF)), Ok(Addr::PERIPHERAL(0x000F_FFFF)));
    assert_eq!(map_addr(PAddr(0x0480_0000)), Ok(Addr::SERIAL(0)));
    assert_eq!(map_addr(PAddr(0x048F_FFFF)), Ok(Addr::SERIAL(0x000F_FFFF)));
    assert_eq!(map_addr(PAddr(0x0600_0000)), Ok(Addr::CARTDOM11(0)));
    assert_eq!(map_addr(PAddr(0x07FF_FFFF)), Ok(Addr::CARTDOM11(0x01FF_FFFF)));
    assert_eq!(map_addr(PAddr(0x1000_0000)), Ok(Addr::CARTDOM12(0)));
    assert_eq!(map_addr(PAddr(0x1F39_FFFF)), Ok(Addr::CARTDOM12(0x0F39_FFFF)));
    assert_eq!(map_addr(PAddr(0x1FC0_0000)), Ok(Addr::PIF(0)));
    assert_eq!(map_addr(PAddr(0x1FC0_07FF)), Ok(Addr::PIF(0x7FF)));
}

#[test]
fn peripheral_and_video_status_addresses_map_to_their_windows() {
    assert_eq!(map_addr(PAddr(0x0460_0010)), Ok(Addr::PERIPHERAL(0x10)));
    assert_eq!(map_addr(PAddr(0x0440_0010)), Ok(Addr::VIDEO(0x10)));
}

#[test]
fn addresses_between_windows_fault() {
    let gaps: [u32; 12] = [
        0x0420_0000,
        0x0430_1234,
        0x043F_FFFF,
        0x0470_0000,
        0x047F_FFFF,
        0x0490_0000,
        0x05FF_FFFF,
        0x0800_0000,
        0x0FFF_FFFF,
        0x1F3A_0000,
        0x1FBF_FFFF,
        0x1FC0_0800,
    ];
    for addr in gaps {
        assert_eq!(map_addr(PAddr(addr)), Err(Fault::Address { address: addr as u64 }));
    }
    assert_eq!(
        map_addr(PAddr(0xFFFF_FFFF)),
        Err(Fault::Address { address: 0xFFFF_FFFF })
    );
}
