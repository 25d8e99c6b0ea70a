use vstd::prelude::*;
use crate::byte_order::{read_word_at, word_at};
use crate::fault::Fault;

verus! {

pub const CART_ROM_HEADER_START: u32 = 0x0;
pub const CART_ROM_HEADER_END: u32 = 0x3f;

pub const CART_RAMROM_BOOTSTRAP_START: u32 = 0x040;
pub const CART_RAMROM_BOOTSTRAP_END: u32 = 0xB6F;

pub const CART_RAMROM_FONTDATA_START: u32 = 0xB70;
pub const CART_RAMROM_FONTDATA_END: u32 = 0xFEF;

/// Offset of the boot code in the image: the first byte that the
/// checksums cover.
pub const CRC_START: usize = 0x40;

/// Number of bytes that the checksum of the boot code covers.
pub const CRC_END: usize = 0xFC0;

/// Number of bytes that the checksum covers on the arcade board variant.
pub const CRC_ALECK_END: usize = 0xBC0;

/// Smallest image that holds the header and the whole boot code.
pub const CART_MIN_SIZE: usize = 0x1000;

/// The reflected CRC-32 polynomial.
pub const CRC_POLYNOMIAL: u32 = 0xEDB88320;

/// One step of the bitwise CRC: shift right, and fold the polynomial in
/// when the bit shifted out was set.
pub open spec fn crc_shift(c: u32) -> u32 {
    if c & 1 == 1 {
        CRC_POLYNOMIAL ^ (c >> 1)
    } else {
        c >> 1
    }
}

/// Eight steps of the bitwise CRC.
pub open spec fn crc_shift8(c: u32) -> u32 {
    crc_shift(crc_shift(crc_shift(crc_shift(crc_shift(crc_shift(crc_shift(crc_shift(c))))))))
}

/// The CRC register after one more byte.
pub open spec fn crc_feed(c: u32, byte: u8) -> u32 {
    crc_shift8(c ^ (byte as u32))
}

/// The image stores its bytes in swapped pairs: position `n` of the
/// checksummed stream is found at the other byte of its 16-bit pair.
pub open spec fn pair_swapped(n: int) -> int {
    if n % 2 == 1 {
        n - 1
    } else {
        n + 1
    }
}

/// The CRC register after the first `n` bytes of the stream, started at all
/// ones.
pub open spec fn crc_register(rom: Seq<u8>, n: nat) -> u32
    decreases n,
{
    if n == 0 {
        0xFFFF_FFFFu32
    } else {
        crc_feed(crc_register(rom, (n - 1) as nat), rom[pair_swapped(n - 1)])
    }
}

/// The CRC-32 of the first `size` bytes of the pair-swapped stream of
/// `rom`.
pub open spec fn crc_of(rom: Seq<u8>, size: nat) -> u32 {
    crc_register(rom, size) ^ 0xFFFF_FFFFu32
}

/// The table-driven update of the CRC register is the bitwise one.
proof fn lemma_table_step(c: u32, byte: u8)
    ensures
        crc_shift8((c ^ (byte as u32)) & 0xFF) ^ (c >> 8) == crc_feed(c, byte),
{
    assert(crc_shift8((c ^ (byte as u32)) & 0xFF) ^ (c >> 8) == crc_shift8(c ^ (byte as u32)))
        by (bit_vector);
}

/// The CRC-32 of the first `size` bytes of `rom`, its bytes taken in
/// swapped pairs.
pub fn calc_crc(rom: &[u8], size: usize) -> (crc: u32)
    requires
        size + size % 2 <= rom@.len(),
    ensures
        crc == crc_of(rom@, size as nat),
{
    let mut table: [u32; 256] = [0; 256];
    let mut n: u32 = 0;
    while n < 256
        invariant
            n <= 256,
            forall|i: int| 0 <= i < n ==> #[trigger] table@[i] == crc_shift8(i as u32),
        decreases 256 - n,
    {
        let mut c: u32 = n;
        c = if c & 1 == 1 { CRC_POLYNOMIAL ^ (c >> 1) } else { c >> 1 };
        c = if c & 1 == 1 { CRC_POLYNOMIAL ^ (c >> 1) } else { c >> 1 };
        c = if c & 1 == 1 { CRC_POLYNOMIAL ^ (c >> 1) } else { c >> 1 };
        c = if c & 1 == 1 { CRC_POLYNOMIAL ^ (c >> 1) } else { c >> 1 };
        c = if c & 1 == 1 { CRC_POLYNOMIAL ^ (c >> 1) } else { c >> 1 };
        c = if c & 1 == 1 { CRC_POLYNOMIAL ^ (c >> 1) } else { c >> 1 };
        c = if c & 1 == 1 { CRC_POLYNOMIAL ^ (c >> 1) } else { c >> 1 };
        c = if c & 1 == 1 { CRC_POLYNOMIAL ^ (c >> 1) } else { c >> 1 };
        table[n as usize] = c;
        n = n + 1;
    }
    let mut c: u32 = 0xFFFF_FFFF;
    let mut k: usize = 0;
    while k < size
        invariant
            k <= size,
            size + size % 2 <= rom@.len(),
            forall|i: int| 0 <= i < 256 ==> #[trigger] table@[i] == crc_shift8(i as u32),
            c == crc_register(rom@, k as nat),
        decreases size - k,
    {
        assert((k & 1) == 1 <==> k % 2 == 1) by (bit_vector);
        let p: usize = if (k & 1) == 1 {
            k - 1
        } else {
            k + 1
        };
        let byte: u8 = rom[p];
        let index: u32 = (c ^ (byte as u32)) & 0xFF;
        assert(index < 256) by (bit_vector)
            requires
                index == (c ^ (byte as u32)) & 0xFF,
        ;
        proof {
            lemma_table_step(c, byte);
        }
        c = table[index as usize] ^ (c >> 8);
        k = k + 1;
    }
    c ^ 0xFFFF_FFFF
}

/// A cartridge: its ROM image and the checksums of its boot code.
#[derive(Debug)]
pub struct Cartridge {
    pub rom: Vec<u8>,
    pub crc_fix: u32,
}

/// The state of a cartridge as plain values.
pub struct CartridgeState {
    pub rom: Seq<u8>,
    pub crc_fix: u32,
}

impl View for Cartridge {
    type V = CartridgeState;

    open spec fn view(&self) -> CartridgeState {
        CartridgeState { rom: self.rom@, crc_fix: self.crc_fix }
    }
}

impl CartridgeState {
    /// The image holds at least its header and boot code.
    pub open spec fn wf(&self) -> bool {
        self.rom.len() >= CART_MIN_SIZE
    }

    /// What a read of offset `addr` yields: the image's word inside the
    /// header, boot code and font data, zero beyond them.
    pub open spec fn read_result(&self, addr: u32) -> u32 {
        if addr <= CART_RAMROM_FONTDATA_END {
            word_at(self.rom, addr as int)
        } else {
            0
        }
    }
}

impl Cartridge {
    /// A cartridge around the given image.  The image must hold the header
    /// and the whole boot code, the part that the checksums cover.
    pub fn new(cartrom: Vec<u8>) -> (cart: Cartridge)
        requires
            cartrom@.len() >= CART_MIN_SIZE,
        ensures
            cart@.wf(),
            cart@ == (CartridgeState { rom: cartrom@, crc_fix: 0 }),
    {
        Cartridge { rom: cartrom, crc_fix: 0 }
    }

    /// Reads the word at offset `addr` of the cartridge.
    pub fn read(&self, addr: u32) -> (r: u32)
        requires
            self@.wf(),
        ensures
            r == self@.read_result(addr),
    {
        if addr <= CART_ROM_HEADER_END {
            self.read_cart_rom_header(addr)
        } else if addr <= CART_RAMROM_BOOTSTRAP_END {
            self.read_cart_ramrom_bootstrap(addr)
        } else if addr <= CART_RAMROM_FONTDATA_END {
            self.read_cart_ramrom_fontdata(addr)
        } else {
            0
        }
    }

    /// A cartridge cannot be written: every write faults and leaves it
    /// unchanged.
    pub fn write(&mut self, addr: u32, value: u32) -> (r: Result<(), Fault>)
        ensures
            r == Err::<(), Fault>(
                Fault::UnsupportedOperation { address: addr as u64, value: value as u64 },
            ),
            *final(self) == *old(self),
    {
        Err(Fault::UnsupportedOperation { address: addr as u64, value: value as u64 })
    }

    fn read_cart_rom_header(&self, addr: u32) -> (r: u32)
        requires
            addr + 4 <= self.rom@.len(),
        ensures
            r == word_at(self.rom@, addr as int),
    {
        read_word_at(self.rom.as_slice(), addr as usize)
    }

    fn read_cart_ramrom_bootstrap(&self, addr: u32) -> (r: u32)
        requires
            addr + 4 <= self.rom@.len(),
        ensures
            r == word_at(self.rom@, addr as int),
    {
        read_word_at(self.rom.as_slice(), addr as usize)
    }

    fn read_cart_ramrom_fontdata(&self, addr: u32) -> (r: u32)
        requires
            addr + 4 <= self.rom@.len(),
        ensures
            r == word_at(self.rom@, addr as int),
    {
        read_word_at(self.rom.as_slice(), addr as usize)
    }
}

} // verus!
