use vstd::prelude::*;

verus! {

/// The configuration register of the system control coprocessor.
#[derive(Clone, Copy, Debug)]
pub struct RegConfig {
    pub transfer_data_pattern: TransferDataPattern,
    pub endianness: Endianness,
    pub cu: bool,
    pub kseg0_cache_bits: [bool; 3],
}

/// The data rate of block writes, bits 27..24 of the register.
#[derive(Clone, Copy, Debug, PartialEq, Eq, Structural)]
pub enum TransferDataPattern {
    D,
    DxxDxx,
    RFU,
}

/// The byte order of memory, bit 15 of the register.
#[derive(Clone, Copy, Debug, PartialEq, Eq, Structural)]
pub enum Endianness {
    LittleEndian,
    BigEndian,
}

/// The coherency algorithm of kseg0, bits 2..0 of the register: only the
/// value `0b010` stands for a segment that the cache is not used for.
#[derive(Clone, Copy, Debug, PartialEq, Eq, Structural)]
pub enum CoherencyAlgorithm {
    NotUsed(u8),
    Used(u8),
}

impl TransferDataPattern {
    /// The pattern that a register word selects.
    pub open spec fn of_word(f: u32) -> TransferDataPattern {
        if (f >> 24) & 0b1111 == 0 {
            TransferDataPattern::D
        } else if (f >> 24) & 0b1111 == 6 {
            TransferDataPattern::DxxDxx
        } else {
            TransferDataPattern::RFU
        }
    }
}

impl Default for TransferDataPattern {
    fn default() -> (r: TransferDataPattern)
        ensures
            r == TransferDataPattern::D,
    {
        TransferDataPattern::D
    }
}

impl From<u32> for TransferDataPattern {
    fn from(f: u32) -> (r: TransferDataPattern) {
        let transfer_data_patterndata: u32 = (f >> 24) & 0b1111;
        if transfer_data_patterndata == 0 {
            TransferDataPattern::D
        } else if transfer_data_patterndata == 6 {
            TransferDataPattern::DxxDxx
        } else {
            TransferDataPattern::RFU
        }
    }
}

impl vstd::std_specs::convert::FromSpecImpl<u32> for TransferDataPattern {
    open spec fn obeys_from_spec() -> bool {
        true
    }

    open spec fn from_spec(f: u32) -> TransferDataPattern {
        TransferDataPattern::of_word(f)
    }
}

impl Endianness {
    /// The byte order that a register word selects.
    pub open spec fn of_word(f: u32) -> Endianness {
        if (f >> 15) & 0b1 == 0 {
            Endianness::LittleEndian
        } else {
            Endianness::BigEndian
        }
    }
}

impl Default for Endianness {
    fn default() -> (r: Endianness)
        ensures
            r == Endianness::BigEndian,
    {
        Endianness::BigEndian
    }
}

impl From<u32> for Endianness {
    fn from(f: u32) -> (r: Endianness) {
        let endiannessdata: u32 = (f >> 15) & 0b1;
        if endiannessdata == 0 {
            Endianness::LittleEndian
        } else {
            Endianness::BigEndian
        }
    }
}

impl vstd::std_specs::convert::FromSpecImpl<u32> for Endianness {
    open spec fn obeys_from_spec() -> bool {
        true
    }

    open spec fn from_spec(f: u32) -> Endianness {
        Endianness::of_word(f)
    }
}

impl CoherencyAlgorithm {
    /// The algorithm that the low three bits of a word select.
    pub open spec fn of_word(f: u32) -> CoherencyAlgorithm {
        if (f & 0b111) as u8 == 0b010 {
            CoherencyAlgorithm::NotUsed((f & 0b111) as u8)
        } else {
            CoherencyAlgorithm::Used((f & 0b111) as u8)
        }
    }
}

impl Default for CoherencyAlgorithm {
    fn default() -> (r: CoherencyAlgorithm)
        ensures
            r == CoherencyAlgorithm::NotUsed(0b000),
    {
        CoherencyAlgorithm::NotUsed(0b000)
    }
}

impl From<u32> for CoherencyAlgorithm {
    fn from(f: u32) -> (r: CoherencyAlgorithm) {
        assert(f & 0b111 <= 7) by (bit_vector);
        let coherency_algorithmdata: u8 = (f & 0b111) as u8;
        if coherency_algorithmdata == 0b010 {
            CoherencyAlgorithm::NotUsed(coherency_algorithmdata)
        } else {
            CoherencyAlgorithm::Used(coherency_algorithmdata)
        }
    }
}

impl vstd::std_specs::convert::FromSpecImpl<u32> for CoherencyAlgorithm {
    open spec fn obeys_from_spec() -> bool {
        true
    }

    open spec fn from_spec(f: u32) -> CoherencyAlgorithm {
        CoherencyAlgorithm::of_word(f)
    }
}

/// The number that three bits stand for, the first being the lowest.
pub open spec fn bits_value(b0: bool, b1: bool, b2: bool) -> u32 {
    ((if b0 {
        1int
    } else {
        0int
    }) + (if b1 {
        2int
    } else {
        0int
    }) + (if b2 {
        4int
    } else {
        0int
    })) as u32
}

/// The configuration register as plain values.
pub struct RegConfigState {
    pub transfer_data_pattern: TransferDataPattern,
    pub endianness: Endianness,
    pub cu: bool,
    pub kseg0_cache_bits: Seq<bool>,
}

impl View for RegConfig {
    type V = RegConfigState;

    open spec fn view(&self) -> RegConfigState {
        RegConfigState {
            transfer_data_pattern: self.transfer_data_pattern,
            endianness: self.endianness,
            cu: self.cu,
            kseg0_cache_bits: self.kseg0_cache_bits@,
        }
    }
}

impl RegConfigState {
    /// The register that the word `data` decodes to: the pattern from bits
    /// 27..24, the byte order from bit 15, CU from bit 3 and the three
    /// cache bits from bits 2..0, lowest first.
    pub open spec fn of_word(data: u32) -> RegConfigState {
        RegConfigState {
            transfer_data_pattern: TransferDataPattern::of_word(data),
            endianness: Endianness::of_word(data),
            cu: (data >> 3) & 0b1 != 0,
            kseg0_cache_bits: seq![data & 1 != 0, data & 2 != 0, data & 4 != 0],
        }
    }

    /// The power-on state.
    pub open spec fn reset() -> RegConfigState {
        RegConfigState {
            transfer_data_pattern: TransferDataPattern::D,
            endianness: Endianness::BigEndian,
            cu: false,
            kseg0_cache_bits: seq![false, false, false],
        }
    }
}

impl RegConfig {
    /// The register that the word `data` decodes to.
    pub fn from_word(data: u32) -> (r: RegConfig)
        ensures
            r@ == RegConfigState::of_word(data),
    {
        assert(1u32 << 0 == 1 && 1u32 << 1 == 2 && 1u32 << 2 == 4) by (bit_vector);
        let r = RegConfig {
            transfer_data_pattern: TransferDataPattern::from(data),
            endianness: Endianness::from(data),
            cu: (data >> 3) & 0b1 != 0,
            kseg0_cache_bits: [
                (data & (1u32 << 0)) != 0,
                (data & (1u32 << 1)) != 0,
                (data & (1u32 << 2)) != 0,
            ],
        };
        assert(r@.kseg0_cache_bits =~= RegConfigState::of_word(data).kseg0_cache_bits);
        r
    }

    /// Puts the pattern and the byte order back to their power-on values.
    pub fn power_on_reset(&mut self)
        ensures
            final(self)@ == (RegConfigState {
                transfer_data_pattern: TransferDataPattern::D,
                endianness: Endianness::BigEndian,
                ..old(self)@
            }),
    {
        self.transfer_data_pattern = TransferDataPattern::D;
        self.endianness = Endianness::BigEndian;
    }

    /// The coherency algorithm that the three cache bits select.
    pub fn get_kseg0_coherency_algorithm(&self) -> (r: CoherencyAlgorithm)
        ensures
            r == CoherencyAlgorithm::of_word(
                bits_value(
                    self@.kseg0_cache_bits[0],
                    self@.kseg0_cache_bits[1],
                    self@.kseg0_cache_bits[2],
                ),
            ),
    {
        let mut cache_value: u32 = 0;
        if self.kseg0_cache_bits[0] {
            cache_value = cache_value | 1;
        }
        if self.kseg0_cache_bits[1] {
            cache_value = cache_value | 2;
        }
        if self.kseg0_cache_bits[2] {
            cache_value = cache_value | 4;
        }
        assert(0u32 | 1 == 1 && 0u32 | 2 == 2 && 0u32 | 4 == 4 && 1u32 | 2 == 3 && 1u32 | 4 == 5
            && 2u32 | 4 == 6 && 3u32 | 4 == 7) by (bit_vector);
        CoherencyAlgorithm::from(cache_value)
    }
}

impl Default for RegConfig {
    fn default() -> (r: RegConfig)
        ensures
            r@ == RegConfigState::reset(),
    {
        let r = RegConfig {
            transfer_data_pattern: TransferDataPattern::D,
            endianness: Endianness::BigEndian,
            cu: false,
            kseg0_cache_bits: [false, false, false],
        };
        assert(r@.kseg0_cache_bits =~= RegConfigState::reset().kseg0_cache_bits);
        r
    }
}

/// The coherency algorithm read from a register is the one that the word
/// last written selects.
pub proof fn lemma_coherency_of_written_word(data: u32)
    ensures
        ({
            let bits = RegConfigState::of_word(data).kseg0_cache_bits;
            CoherencyAlgorithm::of_word(bits_value(bits[0], bits[1], bits[2]))
                == CoherencyAlgorithm::of_word(data)
        }),
{
    let b0 = data & 1 != 0;
    let b1 = data & 2 != 0;
    let b2 = data & 4 != 0;
    let v = bits_value(b0, b1, b2);
    assert(v == data & 0b111) by (bit_vector)
        requires
            b0 == (data & 1 != 0),
            b1 == (data & 2 != 0),
            b2 == (data & 4 != 0),
            v == (if b0 { 1u32 } else { 0u32 }) + (if b1 { 2u32 } else { 0u32 }) + (if b2 { 4u32 } else { 0u32 }),
    ;
    assert((data & 0b111) & 0b111 == data & 0b111) by (bit_vector);
}

} // verus!
