use vstd::prelude::*;
use crate::cpu::cp0::reg_config::{Endianness, RegConfig, RegConfigState, TransferDataPattern};
use crate::cpu::cp0::reg_status::{RegStatus, RegStatusState};
use crate::fault::Fault;

verus! {

/// Index of the status register.
pub const CP0_STATUS: u8 = 12;

/// Index of the configuration register.
pub const CP0_CONFIG: u8 = 16;

/// The system control coprocessor: its configuration and status
/// registers.
#[derive(Clone, Copy, Debug)]
pub struct CP0 {
    pub reg_config: RegConfig,
    pub reg_status: RegStatus,
}

/// The coprocessor's registers as plain values.
pub struct Cp0State {
    pub reg_config: RegConfigState,
    pub reg_status: RegStatusState,
}

impl View for CP0 {
    type V = Cp0State;

    open spec fn view(&self) -> Cp0State {
        Cp0State { reg_config: self.reg_config@, reg_status: self.reg_status@ }
    }
}

impl Cp0State {
    /// The power-on state.
    pub open spec fn reset() -> Cp0State {
        Cp0State { reg_config: RegConfigState::reset(), reg_status: RegStatusState::reset() }
    }

    /// The state after a write of the low 32 bits of `data` to register
    /// `index`, or the fault that the write raises.  Only the status and
    /// the configuration register can be written.
    pub open spec fn written(&self, index: u8, data: u64) -> Result<Cp0State, Fault> {
        if index == CP0_STATUS {
            match RegStatusState::of_word(data as u32) {
                Ok(status) => Ok(Cp0State { reg_status: status, ..*self }),
                Err(f) => Err(f),
            }
        } else if index == CP0_CONFIG {
            Ok(Cp0State { reg_config: RegConfigState::of_word(data as u32), ..*self })
        } else {
            Err(Fault::UnsupportedOperation { address: index as u64, value: data })
        }
    }
}

impl Default for CP0 {
    fn default() -> (r: CP0)
        ensures
            r@ == Cp0State::reset(),
    {
        CP0 { reg_config: RegConfig::default(), reg_status: RegStatus::default() }
    }
}

impl CP0 {
    /// Puts the configuration register's pattern and byte order back to
    /// their power-on values.
    pub fn power_on_reset(&mut self)
        ensures
            final(self)@ == (Cp0State {
                reg_config: RegConfigState {
                    transfer_data_pattern: TransferDataPattern::D,
                    endianness: Endianness::BigEndian,
                    ..old(self)@.reg_config
                },
                ..old(self)@
            }),
    {
        self.reg_config.power_on_reset();
    }

    /// Writes the low 32 bits of `data` to register `index`.  A faulting
    /// write changes nothing.
    pub fn write_reg(&mut self, index: u8, data: u64) -> (r: Result<(), Fault>)
        ensures
            match old(self)@.written(index, data) {
                Ok(after) => r is Ok && final(self)@ == after,
                Err(f) => r == Err::<(), Fault>(f) && final(self)@ == old(self)@,
            },
    {
        let word: u32 = (data & 0xffff_ffff) as u32;
        assert(word == data as u32) by (bit_vector)
            requires
                word == (data & 0xffff_ffff) as u32,
        ;
        if index == CP0_STATUS {
            self.reg_status.write(word)
        } else if index == CP0_CONFIG {
            self.reg_config = RegConfig::from_word(word);
            Ok(())
        } else {
            Err(Fault::UnsupportedOperation { address: index as u64, value: data })
        }
    }
}

} // verus!
