use gprust64::fault::Fault;
use gprust64::interface::audio::Audio;
use gprust64::interface::cartridge::{calc_crc, Cartridge};
use gprust64::interface::drawing::Drawing;
use gprust64::interface::peripheral::Peripheral;
use gprust64::interface::pif::{fix_ram, Pif};
use gprust64::interface::rdram::Rdram;
use gprust64::interface::rsp::Rsp;
use gprust64::interface::serial::Serial;
use gprust64::interface::video::Video;

#[test]
fn audio_registers() {
    let mut ai = Audio::default();
    assert_eq!(ai, Audio { dram_address: 0, length: 0 });
    assert_eq!(ai.write(0, 0xffff_ffff), Ok(()));
    assert_eq!(ai.dram_address, 0x00ff_ffff);
    assert_eq!(ai.write(4, 0xabcd_ef12), Ok(()));
    assert_eq!(ai.length, 0x0001_ef12);
    assert_eq!(ai.read(4), Ok(0x0001_ef12));
    ai.length = 0xffff_ffff;
    assert_eq!(ai.read(4), Ok(0x0003_ffff));
    assert_eq!(ai.read(0), Err(Fault::Address { address: 0 }));
    assert_eq!(ai.read(8), Err(Fault::Address { address: 8 }));
    let before = ai;
    assert_eq!(
        ai.write(8, 3),
        Err(Fault::UnsupportedOperation { address: 8, value: 3 })
    );
    assert_eq!(ai, before);
}

#[test]
fn drawing_registers() {
    let mut dpc = Drawing::default();
    assert_eq!(dpc.read(0x0c), Ok(0));
    dpc.clock = 0xab12_3456;
    assert_eq!(dpc.read(0x10), Ok(0x0012_3456));
    assert_eq!(dpc.read(0x0c), Ok(0));
    assert_eq!(dpc.read(0x14), Err(Fault::Address { address: 0x14 }));
    assert_eq!(
        dpc.write(0x0c, 1),
        Err(Fault::UnsupportedOperation { address: 0x0c, value: 1 })
    );
    assert_eq!(dpc.clock, 0xab12_3456);
}

#[test]
fn serial_status_toggles() {
    let mut si = Serial::default();
    assert_eq!(si.read(0x18), Ok(0));
    assert_eq!(si.write(0x18, 0), Ok(()));
    assert_eq!(si.read(0x18), Ok(0x1000));
    assert_eq!(si.write(0x18, 0xffff_ffff), Ok(()));
    assert_eq!(si.read(0x18), Ok(0));
    si.status = 0xffff_ffff;
    assert_eq!(si.read(0x18), Ok(0x100f));
    assert_eq!(si.read(0x1c), Err(Fault::Address { address: 0x1c }));
    assert_eq!(
        si.write(0x1c, 2),
        Err(Fault::UnsupportedOperation { address: 0x1c, value: 2 })
    );
    assert_eq!(si.status, 0xffff_ffff);
}

#[test]
fn video_registers() {
    let mut vi = Video::default();
    assert_eq!(vi.write(0x0c, 0xffff_ffff), Ok(()));
    assert_eq!(vi.read(0x0c), Ok(0x3ff));
    assert_eq!(vi.write(0x24, 0x1234_5678), Ok(()));
    assert_eq!(vi.horizontal_video_start, 0x234);
    assert_eq!(vi.horizontal_video_end, 0x278);
    assert_eq!(vi.read(0x24), Ok(0x0234_0278));
    assert_eq!(vi.write(0x10, 0xffff_fd55), Ok(()));
    assert_eq!(vi.read(0x10), Ok(0x155));
    vi.current_vertical_line = 0xffff;
    assert_eq!(vi.read(0x10), Ok(0x3ff));
    assert_eq!(vi.read(0x00), Err(Fault::Address { address: 0 }));
    let before = vi;
    assert_eq!(
        vi.write(0x00, 9),
        Err(Fault::UnsupportedOperation { address: 0, value: 9 })
    );
    assert_eq!(vi, before);
}

#[test]
fn peripheral_registers() {
    let mut pi = Peripheral::default();
    assert_eq!(pi.read(0x10), Ok(0));
    pi.io_busy = true;
    assert_eq!(pi.read(0x10), Ok(0b010));
    pi.dma_busy = true;
    pi.error = true;
    assert_eq!(pi.read(0x10), Ok(0b111));
    assert_eq!(pi.write(0x10, 3), Ok(()));
    assert_eq!(pi.read(0x10), Ok(0b111));
    assert_eq!(pi.write(0x14, 0x1234), Ok(()));
    assert_eq!(pi.read(0x14), Ok(0x34));
    assert_eq!(pi.write(0x18, 0x12ff), Ok(()));
    assert_eq!(pi.read(0x18), Ok(0xff));
    assert_eq!(pi.write(0x1c, 0xff), Ok(()));
    assert_eq!(pi.read(0x1c), Ok(0xf));
    assert_eq!(pi.write(0x20, 0xff), Ok(()));
    assert_eq!(pi.read(0x20), Ok(1));
    assert_eq!(pi.read(0x24), Err(Fault::Address { address: 0x24 }));
    let before = pi;
    assert_eq!(
        pi.write(0x24, 1),
        Err(Fault::UnsupportedOperation { address: 0x24, value: 1 })
    );
    assert_eq!(pi, before);
}

#[test]
fn signal_processor_status_flags() {
    let mut rsp = Rsp::new();
    assert_eq!(rsp.imem.len(), 0x1000);
    assert_eq!(rsp.signal, vec![false; 8]);
    assert_eq!(rsp.write(0x40010, 0b1_0101_0010), Ok(()));
    assert!(rsp.halt && rsp.intr && rsp.single_step && rsp.intr_on_break);
    assert_eq!(rsp.write(0x40010, 0b0_1010_1001), Ok(()));
    assert!(!rsp.halt && !rsp.intr && !rsp.single_step && !rsp.intr_on_break);
    assert_eq!(rsp.write(0x40010, 0b11), Ok(()));
    assert!(rsp.halt);
    rsp.broke = true;
    assert_eq!(rsp.write(0x40010, 0), Ok(()));
    assert!(rsp.broke && rsp.halt);
    assert_eq!(rsp.write(0x40010, 0b100), Ok(()));
    assert!(!rsp.broke);
    assert_eq!(
        rsp.write(0x40010, 0b10_0000_0001),
        Err(Fault::UnsupportedOperation { address: 0x40010, value: 0b10_0000_0001 })
    );
    assert!(rsp.halt);
    assert_eq!(rsp.write(0x40010, 1 << 25), Ok(()));
    assert_eq!(
        rsp.write(0x40010, 1 << 24),
        Err(Fault::UnsupportedOperation { address: 0x40010, value: 1 << 24 })
    );
}

#[test]
fn signal_processor_reads() {
    let mut rsp = Rsp::new();
    assert_eq!(rsp.read(0x40010), Ok(1));
    assert_eq!(rsp.read(0x40014), Ok(0));
    assert_eq!(rsp.read(0x40018), Ok(0));
    rsp.dma_full = true;
    assert_eq!(rsp.read(0x40014), Ok(1));
    assert_eq!(rsp.read(0x40018), Ok(0));
    rsp.dma_busy = true;
    assert_eq!(rsp.read(0x40018), Ok(1));
    assert_eq!(rsp.read(0), Err(Fault::Address { address: 0 }));
    assert_eq!(rsp.read(0x2000), Err(Fault::Address { address: 0x2000 }));
    assert_eq!(
        rsp.write(0x40014, 1),
        Err(Fault::UnsupportedOperation { address: 0x40014, value: 1 })
    );
}

#[test]
fn signal_processor_instruction_memory() {
    let mut rsp = Rsp::new();
    assert_eq!(rsp.write(0x1ffc, 0x0102_0304), Ok(()));
    assert_eq!(rsp.read(0x1ffc), Ok(0x0102_0304));
    assert_eq!(&rsp.imem[0xffc..], &[1, 2, 3, 4]);
    assert_eq!(rsp.read(0x1ffa), Ok(0x0000_0102));
    assert_eq!(rsp.read(0x1ffd), Err(Fault::Address { address: 0x1ffd }));
    assert_eq!(rsp.write(0x1fff, 1), Err(Fault::Address { address: 0x1fff }));
    assert_eq!(rsp.read(0x1000), Ok(0));
}

#[test]
fn boot_block_reads_and_writes() {
    let mut rom = vec![0u8; 0x7c0];
    rom[0x7bc] = 0x11;
    rom[0x7bf] = 0x22;
    let mut pif = Pif::new(rom);
    assert_eq!(pif.ram.len(), 0x40);
    assert_eq!(&pif.ram[0x24..0x28], &[0x00, 0x02, 0x3f, 0x3f]);
    assert_eq!(pif.read(0x7bc), Ok(0x1100_0022));
    assert_eq!(pif.read(0x7bd), Err(Fault::Address { address: 0x7bd }));
    assert_eq!(pif.read(0x7c0 + 0x24), Ok(0x0002_3f3f));
    assert_eq!(pif.read(0x7fc), Ok(0));
    assert_eq!(pif.read(0x7fd), Err(Fault::Address { address: 0x7fd }));
    assert_eq!(pif.read(0x800), Err(Fault::Address { address: 0x800 }));
    assert_eq!(pif.write(0x7fc, 0xcafe_f00d), Ok(()));
    assert_eq!(pif.read(0x7fc), Ok(0xcafe_f00d));
    assert_eq!(&pif.ram[0x3c..], &[0xca, 0xfe, 0xf0, 0x0d]);
    assert_eq!(pif.write(0x7fe, 1), Err(Fault::Address { address: 0x7fe }));
    assert_eq!(pif.write(0x800, 1), Err(Fault::Address { address: 0x800 }));
    assert_eq!(
        pif.write(0x7bf, 1),
        Err(Fault::UnsupportedOperation { address: 0x7bf, value: 1 })
    );
}

#[test]
fn boot_block_with_a_short_image() {
    let pif = Pif::new(vec![1, 2, 3, 4, 5]);
    assert_eq!(pif.read(0), Ok(0x0102_0304));
    assert_eq!(pif.read(1), Ok(0x0203_0405));
    assert_eq!(pif.read(2), Err(Fault::Address { address: 2 }));
    let empty = Pif::new(Vec::new());
    assert_eq!(empty.read(0), Err(Fault::Address { address: 0 }));
    assert_eq!(empty.read(0x7c0), Ok(0));
}

#[test]
fn fix_ram_stores_the_seed_big_endian() {
    let mut ram = vec![0xffu8; 0x40];
    fix_ram(&mut ram);
    assert_eq!(&ram[0x24..0x28], &[0x00, 0x02, 0x3f, 0x3f]);
    assert_eq!(ram[0x23], 0xff);
    assert_eq!(ram[0x28], 0xff);
}

#[test]
fn memory_controller_registers() {
    let mut rdram = Rdram::new();
    assert_eq!(rdram.mem.len(), 0x03f0_0000);
    let offsets = [0x00u32, 0x04, 0x08, 0x0c, 0x10, 0x14, 0x18, 0x1c, 0x20, 0x24];
    for (k, offset) in offsets.iter().enumerate() {
        assert_eq!(rdram.read_reg(*offset), Ok(0));
        assert_eq!(rdram.write_reg(*offset, 100 + k as u32), Ok(()));
    }
    for (k, offset) in offsets.iter().enumerate() {
        assert_eq!(rdram.read_reg(*offset), Ok(100 + k as u32));
    }
    assert_eq!(rdram.reg.config, 100);
    assert_eq!(rdram.reg.device_manuf, 109);
    assert_eq!(rdram.read_reg(0x02), Err(Fault::Address { address: 2 }));
    assert_eq!(
        rdram.write_reg(0x28, 5),
        Err(Fault::UnsupportedOperation { address: 0x28, value: 5 })
    );
}

#[test]
fn cartridge_reads_and_refuses_writes() {
    let mut rom = vec![0u8; 0x1004];
    rom[0x3c] = 0x11;
    rom[0x3f] = 0x22;
    rom[0xb6c] = 0x33;
    rom[0xff0] = 0x44;
    rom[0x1000] = 0x55;
    let mut cart = Cartridge::new(rom);
    assert_eq!(cart.crc_fix, 0);
    assert_eq!(cart.read(0x3c), 0x1100_0022);
    assert_eq!(cart.read(0xb6c), 0x3300_0000);
    assert_eq!(cart.read(0xfed), 0x0000_0044);
    assert_eq!(cart.read(0xff0), 0);
    assert_eq!(cart.read(0x1000), 0);
    assert_eq!(
        cart.write(0, 1),
        Err(Fault::UnsupportedOperation { address: 0, value: 1 })
    );
    assert_eq!(cart.rom.len(), 0x1004);
}

#[test]
fn crc_of_the_check_string() {
    let rom = *b"21436587_9";
    assert_eq!(calc_crc(&rom, 9), 0xcbf4_3926);
}

#[test]
fn crc_of_nothing_and_of_one_byte() {
    assert_eq!(calc_crc(&[], 0), 0);
    assert_eq!(calc_crc(&[0xff, 0x00], 1), 0xd202_ef8d);
    assert_eq!(calc_crc(&[0x00, 0xff], 1), 0xff00_0000);
}

#[test]
fn crc_takes_bytes_in_swapped_pairs() {
    let straight = *b"abcd";
    let swapped = *b"badc";
    assert_eq!(calc_crc(&swapped, 4), 0xed82_cd11);
    assert_ne!(calc_crc(&straight, 4), 0xed82_cd11);
}
