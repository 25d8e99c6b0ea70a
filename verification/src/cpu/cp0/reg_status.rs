use vstd::prelude::*;
use crate::fault::Fault;

verus! {

/// Index of the status register among the coprocessor's registers.
pub const STATUS_REGISTER: u64 = 12;

/// The status register of the system control coprocessor.
#[derive(Clone, Copy, Debug)]
pub struct RegStatus {
    /// CU: which coprocessors may be used.
    pub coproc_usability: [bool; 4],
    /// RP: low power mode.
    pub low_power: bool,
    /// FR: additional floating-point registers.
    pub fpregs_extend: bool,
    /// RE: reversed byte order in user mode.
    pub reverse_endian: bool,
    /// DS: the diagnostic status field.
    pub diag_status: DiagnosticStatus,
    /// IM: the interrupt mask.
    pub interrupt_mask: InterruptMask,
    /// KX: 64-bit addressing in kernel mode.
    pub kernel_mode_64bit: bool,
    /// SX: 64-bit addressing in supervisor mode.
    pub supervisor_mode_64bit: bool,
    /// UX: 64-bit addressing in user mode.
    pub user_mode_64bit: bool,
    /// KSU: the processor mode.
    pub mode: Mode,
    /// ERL: the error level.
    pub error_level: ErrorLevel,
    /// EXL: the exception level.
    pub exception_level: ExceptionLevel,
    /// IE: interrupts enabled.
    pub interrupt_enabled: bool,
}

/// The diagnostic status field of the status register.
#[derive(Clone, Copy, Debug, PartialEq, Eq, Structural)]
pub struct DiagnosticStatus {
    /// ITS: instruction trace support.
    pub instruction_trace_support: bool,
    /// BEV: where the exception vectors lie.
    pub tlb_exception_vector_location: ExceptionVectorLocation,
    /// TS: a TLB shutdown has occurred.
    pub tlb_shutdown: bool,
    /// SR: a soft reset or a non-maskable interrupt has occurred.
    pub soft_reset_or_nmi_occurred: bool,
    /// CH: the condition bit.
    pub condition_bit: bool,
}

/// The interrupt mask of the status register.
#[derive(Clone, Copy, Debug)]
pub struct InterruptMask {
    /// IM(7): the timer interrupt.
    pub timer_interrupt: bool,
    /// IM(6:2): the external interrupts.
    pub external_interrupt: [bool; 5],
    /// IM(1:0): the software interrupts.
    pub software_interrupt: [bool; 2],
}

/// The processor mode, bits 4..3 of the status register.
#[derive(Clone, Copy, Debug, PartialEq, Eq, Structural)]
pub enum Mode {
    User,
    Supervisor,
    Kernel,
}

/// Where the exception vectors lie, bit 6 of the diagnostic status field.
#[derive(Clone, Copy, Debug, PartialEq, Eq, Structural)]
pub enum ExceptionVectorLocation {
    Normal,
    Bootstrap,
}

/// The error level, read from bit 2 of the status register.
#[derive(Clone, Copy, Debug, PartialEq, Eq, Structural)]
pub enum ErrorLevel {
    Normal,
    Error,
}

/// The exception level, read from bit 2 of the status register.
#[derive(Clone, Copy, Debug, PartialEq, Eq, Structural)]
pub enum ExceptionLevel {
    Normal,
    Exception,
}

impl Mode {
    /// The mode that a status word selects, or the fault of the reserved
    /// value `0b11`.
    pub open spec fn of_word(f: u32) -> Result<Mode, Fault> {
        if (f >> 3) & 0b11 == 0b00 {
            Ok(Mode::Kernel)
        } else if (f >> 3) & 0b11 == 0b01 {
            Ok(Mode::Supervisor)
        } else if (f >> 3) & 0b11 == 0b10 {
            Ok(Mode::User)
        } else {
            Err(Fault::UnsupportedOperation { address: STATUS_REGISTER, value: f as u64 })
        }
    }

    /// Decodes the mode of a status word.
    pub fn from_word(f: u32) -> (r: Result<Mode, Fault>)
        ensures
            r == Mode::of_word(f),
    {
        let mode: u32 = (f >> 3) & 0b11;
        if mode == 0b00 {
            Ok(Mode::Kernel)
        } else if mode == 0b01 {
            Ok(Mode::Supervisor)
        } else if mode == 0b10 {
            Ok(Mode::User)
        } else {
            Err(Fault::UnsupportedOperation { address: STATUS_REGISTER, value: f as u64 })
        }
    }
}

impl Default for Mode {
    fn default() -> (r: Mode)
        ensures
            r == Mode::Kernel,
    {
        Mode::Kernel
    }
}

impl ExceptionVectorLocation {
    /// The location that a diagnostic status field selects.
    pub open spec fn of_word(f: u16) -> ExceptionVectorLocation {
        if f & 0b001000000 == 0 {
            ExceptionVectorLocation::Normal
        } else {
            ExceptionVectorLocation::Bootstrap
        }
    }
}

impl Default for ExceptionVectorLocation {
    fn default() -> (r: ExceptionVectorLocation)
        ensures
            r == ExceptionVectorLocation::Normal,
    {
        ExceptionVectorLocation::Normal
    }
}

impl From<u16> for ExceptionVectorLocation {
    fn from(f: u16) -> (r: ExceptionVectorLocation) {
        if f & 0b001000000 == 0 {
            ExceptionVectorLocation::Normal
        } else {
            ExceptionVectorLocation::Bootstrap
        }
    }
}

impl vstd::std_specs::convert::FromSpecImpl<u16> for ExceptionVectorLocation {
    open spec fn obeys_from_spec() -> bool {
        true
    }

    open spec fn from_spec(f: u16) -> ExceptionVectorLocation {
        ExceptionVectorLocation::of_word(f)
    }
}

impl ErrorLevel {
    /// The error level that a status word selects: normal when bit 2 is
    /// set.
    pub open spec fn of_word(f: u32) -> ErrorLevel {
        if (f >> 2) & 0b1 != 0 {
            ErrorLevel::Normal
        } else {
            ErrorLevel::Error
        }
    }
}

impl Default for ErrorLevel {
    fn default() -> (r: ErrorLevel)
        ensures
            r == ErrorLevel::Normal,
    {
        ErrorLevel::Normal
    }
}

impl From<u32> for ErrorLevel {
    fn from(f: u32) -> (r: ErrorLevel) {
        if ((f >> 2) & 0b1) != 0 {
            ErrorLevel::Normal
        } else {
            ErrorLevel::Error
        }
    }
}

impl vstd::std_specs::convert::FromSpecImpl<u32> for ErrorLevel {
    open spec fn obeys_from_spec() -> bool {
        true
    }

    open spec fn from_spec(f: u32) -> ErrorLevel {
        ErrorLevel::of_word(f)
    }
}

impl ExceptionLevel {
    /// The exception level that a status word selects: normal when bit 2
    /// is set.
    pub open spec fn of_word(f: u32) -> ExceptionLevel {
        if (f >> 2) & 0b1 != 0 {
            ExceptionLevel::Normal
        } else {
            ExceptionLevel::Exception
        }
    }
}

impl Default for ExceptionLevel {
    fn default() -> (r: ExceptionLevel)
        ensures
            r == ExceptionLevel::Normal,
    {
        ExceptionLevel::Normal
    }
}

impl From<u32> for ExceptionLevel {
    fn from(f: u32) -> (r: ExceptionLevel) {
        if ((f >> 2) & 0b1) != 0 {
            ExceptionLevel::Normal
        } else {
            ExceptionLevel::Exception
        }
    }
}

impl vstd::std_specs::convert::FromSpecImpl<u32> for ExceptionLevel {
    open spec fn obeys_from_spec() -> bool {
        true
    }

    open spec fn from_spec(f: u32) -> ExceptionLevel {
        ExceptionLevel::of_word(f)
    }
}

impl DiagnosticStatus {
    /// The field after a write of `data`.  Only the vector location is
    /// decoded from the data; the four flags read as set after any write.
    pub open spec fn of_word(data: u16) -> DiagnosticStatus {
        DiagnosticStatus {
            instruction_trace_support: true,
            tlb_exception_vector_location: ExceptionVectorLocation::of_word(data),
            tlb_shutdown: true,
            soft_reset_or_nmi_occurred: true,
            condition_bit: true,
        }
    }

    /// Writes the field.
    pub fn write(&mut self, data: u16)
        ensures
            *final(self) == DiagnosticStatus::of_word(data),
    {
        self.instruction_trace_support = true;
        self.tlb_exception_vector_location = ExceptionVectorLocation::from(data);
        self.tlb_shutdown = true;
        self.soft_reset_or_nmi_occurred = true;
        self.condition_bit = true;
    }
}

impl Default for DiagnosticStatus {
    fn default() -> (r: DiagnosticStatus)
        ensures
            r == (DiagnosticStatus {
                instruction_trace_support: false,
                tlb_exception_vector_location: ExceptionVectorLocation::Normal,
                tlb_shutdown: false,
                soft_reset_or_nmi_occurred: false,
                condition_bit: false,
            }),
    {
        DiagnosticStatus {
            instruction_trace_support: false,
            tlb_exception_vector_location: ExceptionVectorLocation::Normal,
            tlb_shutdown: false,
            soft_reset_or_nmi_occurred: false,
            condition_bit: false,
        }
    }
}

impl From<u16> for DiagnosticStatus {
    fn from(f: u16) -> (r: DiagnosticStatus) {
        DiagnosticStatus {
            instruction_trace_support: true,
            tlb_exception_vector_location: ExceptionVectorLocation::from(f),
            tlb_shutdown: true,
            soft_reset_or_nmi_occurred: true,
            condition_bit: true,
        }
    }
}

impl vstd::std_specs::convert::FromSpecImpl<u16> for DiagnosticStatus {
    open spec fn obeys_from_spec() -> bool {
        true
    }

    open spec fn from_spec(f: u16) -> DiagnosticStatus {
        DiagnosticStatus::of_word(f)
    }
}

/// The interrupt mask as plain values.
pub struct InterruptMaskState {
    pub timer_interrupt: bool,
    pub external_interrupt: Seq<bool>,
    pub software_interrupt: Seq<bool>,
}

impl View for InterruptMask {
    type V = InterruptMaskState;

    open spec fn view(&self) -> InterruptMaskState {
        InterruptMaskState {
            timer_interrupt: self.timer_interrupt,
            external_interrupt: self.external_interrupt@,
            software_interrupt: self.software_interrupt@,
        }
    }
}

impl InterruptMaskState {
    /// The mask that the byte `data` decodes to: bit 7 the timer
    /// interrupt, bits 2..6 the external interrupts, bits 0..1 the
    /// software interrupts, each lowest first.
    pub open spec fn of_byte(data: u8) -> InterruptMaskState {
        InterruptMaskState {
            timer_interrupt: data & 0b10000000 != 0,
            external_interrupt: seq![
                data & 0b00000100 != 0,
                data & 0b00001000 != 0,
                data & 0b00010000 != 0,
                data & 0b00100000 != 0,
                data & 0b01000000 != 0,
            ],
            software_interrupt: seq![data & 0b00000001 != 0, data & 0b00000010 != 0],
        }
    }

    /// Nothing masked in.
    pub open spec fn cleared() -> InterruptMaskState {
        InterruptMaskState {
            timer_interrupt: false,
            external_interrupt: seq![false, false, false, false, false],
            software_interrupt: seq![false, false],
        }
    }
}

impl InterruptMask {
    /// The mask that the byte `data` decodes to.
    pub fn from_byte(data: u8) -> (r: InterruptMask)
        ensures
            r@ == InterruptMaskState::of_byte(data),
    {
        let r = InterruptMask {
            timer_interrupt: (data & 0b10000000) != 0,
            external_interrupt: [
                (data & 0b00000100) != 0,
                (data & 0b00001000) != 0,
                (data & 0b00010000) != 0,
                (data & 0b00100000) != 0,
                (data & 0b01000000) != 0,
            ],
            software_interrupt: [(data & 0b00000001) != 0, (data & 0b00000010) != 0],
        };
        assert(r@.external_interrupt =~= InterruptMaskState::of_byte(data).external_interrupt);
        assert(r@.software_interrupt =~= InterruptMaskState::of_byte(data).software_interrupt);
        r
    }

    /// Writes the mask.
    pub fn write(&mut self, data: u8)
        ensures
            final(self)@ == InterruptMaskState::of_byte(data),
    {
        self.timer_interrupt = (data & 0b10000000) != 0;
        self.external_interrupt[4] = (data & 0b01000000) != 0;
        self.external_interrupt[3] = (data & 0b00100000) != 0;
        self.external_interrupt[2] = (data & 0b00010000) != 0;
        self.external_interrupt[1] = (data & 0b00001000) != 0;
        self.external_interrupt[0] = (data & 0b00000100) != 0;
        self.software_interrupt[1] = (data & 0b00000010) != 0;
        self.software_interrupt[0] = (data & 0b00000001) != 0;
        assert(self@.external_interrupt =~= InterruptMaskState::of_byte(data).external_interrupt);
        assert(self@.software_interrupt =~= InterruptMaskState::of_byte(data).software_interrupt);
    }
}

impl Default for InterruptMask {
    fn default() -> (r: InterruptMask)
        ensures
            r@ == InterruptMaskState::cleared(),
    {
        let r = InterruptMask {
            timer_interrupt: false,
            external_interrupt: [false, false, false, false, false],
            software_interrupt: [false, false],
        };
        assert(r@.external_interrupt =~= InterruptMaskState::cleared().external_interrupt);
        assert(r@.software_interrupt =~= InterruptMaskState::cleared().software_interrupt);
        r
    }
}

/// The status register as plain values.
pub struct RegStatusState {
    pub coproc_usability: Seq<bool>,
    pub low_power: bool,
    pub fpregs_extend: bool,
    pub reverse_endian: bool,
    pub diag_status: DiagnosticStatus,
    pub interrupt_mask: InterruptMaskState,
    pub kernel_mode_64bit: bool,
    pub supervisor_mode_64bit: bool,
    pub user_mode_64bit: bool,
    pub mode: Mode,
    pub error_level: ErrorLevel,
    pub exception_level: ExceptionLevel,
    pub interrupt_enabled: bool,
}

impl View for RegStatus {
    type V = RegStatusState;

    open spec fn view(&self) -> RegStatusState {
        RegStatusState {
            coproc_usability: self.coproc_usability@,
            low_power: self.low_power,
            fpregs_extend: self.fpregs_extend,
            reverse_endian: self.reverse_endian,
            diag_status: self.diag_status,
            interrupt_mask: self.interrupt_mask@,
            kernel_mode_64bit: self.kernel_mode_64bit,
            supervisor_mode_64bit: self.supervisor_mode_64bit,
            user_mode_64bit: self.user_mode_64bit,
            mode: self.mode,
            error_level: self.error_level,
            exception_level: self.exception_level,
            interrupt_enabled: self.interrupt_enabled,
        }
    }
}

impl RegStatusState {
    /// The register that the word `data` decodes to, or the fault of a
    /// word with the reserved mode.
    pub open spec fn of_word(data: u32) -> Result<RegStatusState, Fault> {
        match Mode::of_word(data) {
            Err(f) => Err(f),
            Ok(mode) => Ok(
                RegStatusState {
                    coproc_usability: seq![
                        (data >> 28) & 0b0001 != 0,
                        (data >> 28) & 0b0010 != 0,
                        (data >> 28) & 0b0100 != 0,
                        (data >> 28) & 0b1000 != 0,
                    ],
                    low_power: (data >> 27) & 0b1 != 0,
                    fpregs_extend: (data >> 26) & 0b1 != 0,
                    reverse_endian: (data >> 25) & 0b1 != 0,
                    diag_status: DiagnosticStatus::of_word(((data >> 16) & 0b111111111) as u16),
                    interrupt_mask: InterruptMaskState::of_byte(((data >> 8) & 0xff) as u8),
                    kernel_mode_64bit: (data >> 7) & 0b1 != 0,
                    supervisor_mode_64bit: (data >> 6) & 0b1 != 0,
                    user_mode_64bit: (data >> 5) & 0b1 != 0,
                    mode,
                    error_level: ErrorLevel::of_word(data),
                    exception_level: ExceptionLevel::of_word(data),
                    interrupt_enabled: data & 0b1 != 0,
                },
            ),
        }
    }

    /// The power-on state: kernel mode, nothing enabled.
    pub open spec fn reset() -> RegStatusState {
        RegStatusState {
            coproc_usability: seq![false, false, false, false],
            low_power: false,
            fpregs_extend: false,
            reverse_endian: false,
            diag_status: DiagnosticStatus {
                instruction_trace_support: false,
                tlb_exception_vector_location: ExceptionVectorLocation::Normal,
                tlb_shutdown: false,
                soft_reset_or_nmi_occurred: false,
                condition_bit: false,
            },
            interrupt_mask: InterruptMaskState::cleared(),
            kernel_mode_64bit: false,
            supervisor_mode_64bit: false,
            user_mode_64bit: false,
            mode: Mode::Kernel,
            error_level: ErrorLevel::Normal,
            exception_level: ExceptionLevel::Normal,
            interrupt_enabled: false,
        }
    }
}

impl RegStatus {
    /// Writes the register.  A word with the reserved mode `0b11` faults
    /// and changes nothing.
    pub fn write(&mut self, data: u32) -> (r: Result<(), Fault>)
        ensures
            match RegStatusState::of_word(data) {
                Ok(after) => r is Ok && final(self)@ == after,
                Err(f) => r == Err::<(), Fault>(f) && *final(self) == *old(self),
            },
    {
        let mode = match Mode::from_word(data) {
            Ok(m) => m,
            Err(f) => {
                return Err(f);
            },
        };
        let coproc: u32 = data >> 28;
        self.coproc_usability[3] = (coproc & 0b1000) != 0;
        self.coproc_usability[2] = (coproc & 0b0100) != 0;
        self.coproc_usability[1] = (coproc & 0b0010) != 0;
        self.coproc_usability[0] = (coproc & 0b0001) != 0;

        self.low_power = ((data >> 27) & 0b1) != 0;
        self.fpregs_extend = ((data >> 26) & 0b1) != 0;
        self.reverse_endian = ((data >> 25) & 0b1) != 0;

        assert((data >> 16) & 0b111111111 <= 0b111111111) by (bit_vector);
        let diag_status: u16 = ((data >> 16) & 0b111111111) as u16;
        self.diag_status.write(diag_status);
        assert((data >> 8) & 0xff <= 0xff) by (bit_vector);
        let interrupt_mask: u8 = ((data >> 8) & 0xff) as u8;
        self.interrupt_mask.write(interrupt_mask);

        self.kernel_mode_64bit = ((data >> 7) & 0b1) != 0;
        self.supervisor_mode_64bit = ((data >> 6) & 0b1) != 0;
        self.user_mode_64bit = ((data >> 5) & 0b1) != 0;

        self.mode = mode;

        self.error_level = ErrorLevel::from(data);
        self.exception_level = ExceptionLevel::from(data);

        self.interrupt_enabled = (data & 0b1) != 0;
        assert(self@.coproc_usability =~= RegStatusState::of_word(data).unwrap().coproc_usability);
        Ok(())
    }
}

impl Default for RegStatus {
    fn default() -> (r: RegStatus)
        ensures
            r@ == RegStatusState::reset(),
    {
        let r = RegStatus {
            coproc_usability: [false, false, false, false],
            low_power: false,
            fpregs_extend: false,
            reverse_endian: false,
            diag_status: DiagnosticStatus::default(),
            interrupt_mask: InterruptMask::default(),
            kernel_mode_64bit: false,
            supervisor_mode_64bit: false,
            user_mode_64bit: false,
            mode: Mode::Kernel,
            error_level: ErrorLevel::Normal,
            exception_level: ExceptionLevel::Normal,
            interrupt_enabled: false,
        };
        assert(r@.coproc_usability =~= RegStatusState::reset().coproc_usability);
        r
    }
}

} // verus!
