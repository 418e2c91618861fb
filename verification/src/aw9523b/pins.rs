//! Ports, pins and the settings a pin or the chip can have.

use vstd::prelude::*;
use vstd::std_specs::convert::FromSpecImpl;
use crate::aw9523b::register::Register;

verus! {

/// One of the two 8-bit ports of the chip.
#[derive(Clone, Copy, Debug, PartialEq, Eq, Structural, Hash)]
pub enum Port {
    Port0,
    Port1,
}

/// The position of a pin in its port.
#[derive(Clone, Copy, Debug, PartialEq, Eq, Structural, Hash)]
pub enum PortPin {
    P0,
    P1,
    P2,
    P3,
    P4,
    P5,
    P6,
    P7,
}

/// A pin of the chip: its port and its position there.
#[derive(Clone, Copy, Debug, PartialEq, Eq, Structural, Hash)]
pub struct Pin(pub Port, pub PortPin);

/// What a pin is used for.
#[derive(Clone, Copy, Debug, PartialEq, Eq, Structural, Hash)]
pub enum PinMode {
    Input,
    Output,
    Led,
}

/// The logic level of a pin.
#[derive(Clone, Copy, Debug, PartialEq, Eq, Structural, Hash)]
pub enum PinState {
    /// Low logic level.
    Low,
    /// High logic level.
    High,
}

/// How the outputs of port 0 are driven.
#[derive(Clone, Copy, Debug, PartialEq, Eq, Structural, Hash)]
pub enum Port0OutputDriveMode {
    /// Pins of port 0 set to open-drain mode.
    OpenDrain,
    /// Pins of port 0 set to push-pull mode.
    PushPull,
}

/// The largest current that an LED output may draw.
#[derive(Clone, Copy, Debug, PartialEq, Eq, Structural, Hash)]
pub enum DriveCurrent {
    /// I_max set to maximum of 37 mA.
    Max,
    /// I_max limited to 3/4 of I_max.
    High,
    /// I_max limited to 1/2 of I_max.
    Mid,
    /// I_max limited to 1/4 of I_max.
    Low,
}

impl Port {
    /// The register that shows the levels at the port's pins.
    pub open spec fn spec_input_register(self) -> Register {
        match self {
            Port::Port0 => Register::InputPort0,
            Port::Port1 => Register::InputPort1,
        }
    }

    /// The register that holds the levels the port drives.
    pub open spec fn spec_output_register(self) -> Register {
        match self {
            Port::Port0 => Register::OutputPort0,
            Port::Port1 => Register::OutputPort1,
        }
    }

    /// The register that holds the direction of the port's pins.
    pub open spec fn spec_config_register(self) -> Register {
        match self {
            Port::Port0 => Register::ConfigPort0,
            Port::Port1 => Register::ConfigPort1,
        }
    }

    /// The register that masks the interrupts of the port's pins.
    pub open spec fn spec_interrupt_register(self) -> Register {
        match self {
            Port::Port0 => Register::IntPort0,
            Port::Port1 => Register::IntPort1,
        }
    }

    /// The register that switches the port's pins between LED and GPIO use.
    pub open spec fn spec_led_mode_switch_register(self) -> Register {
        match self {
            Port::Port0 => Register::LedModeSwitchP0,
            Port::Port1 => Register::LedModeSwitchP1,
        }
    }

    pub fn input_register(self) -> (register: Register)
        ensures
            register == self.spec_input_register(),
    {
        match self {
            Port::Port0 => Register::InputPort0,
            Port::Port1 => Register::InputPort1,
        }
    }

    pub fn output_register(self) -> (register: Register)
        ensures
            register == self.spec_output_register(),
    {
        match self {
            Port::Port0 => Register::OutputPort0,
            Port::Port1 => Register::OutputPort1,
        }
    }

    pub fn config_register(self) -> (register: Register)
        ensures
            register == self.spec_config_register(),
    {
        match self {
            Port::Port0 => Register::ConfigPort0,
            Port::Port1 => Register::ConfigPort1,
        }
    }

    pub fn interrupt_register(self) -> (register: Register)
        ensures
            register == self.spec_interrupt_register(),
    {
        match self {
            Port::Port0 => Register::IntPort0,
            Port::Port1 => Register::IntPort1,
        }
    }

    pub fn led_mode_switch_register(self) -> (register: Register)
        ensures
            register == self.spec_led_mode_switch_register(),
    {
        match self {
            Port::Port0 => Register::LedModeSwitchP0,
            Port::Port1 => Register::LedModeSwitchP1,
        }
    }
}

impl PortPin {
    /// The number of the pin's bit in the registers of its port, from 0 to 7.
    pub open spec fn spec_index(self) -> u8 {
        match self {
            PortPin::P0 => 0,
            PortPin::P1 => 1,
            PortPin::P2 => 2,
            PortPin::P3 => 3,
            PortPin::P4 => 4,
            PortPin::P5 => 5,
            PortPin::P6 => 6,
            PortPin::P7 => 7,
        }
    }

    /// The register value in which the pin's bit alone is set.
    pub open spec fn spec_bits(self) -> u8 {
        1u8 << self.spec_index()
    }

    pub fn index(self) -> (index: u8)
        ensures
            index == self.spec_index(),
            index < 8,
    {
        match self {
            PortPin::P0 => 0,
            PortPin::P1 => 1,
            PortPin::P2 => 2,
            PortPin::P3 => 3,
            PortPin::P4 => 4,
            PortPin::P5 => 5,
            PortPin::P6 => 6,
            PortPin::P7 => 7,
        }
    }

    pub fn bits(self) -> (bits: u8)
        ensures
            bits == self.spec_bits(),
    {
        let index = self.index();
        1u8 << index
    }
}

impl Pin {
    /// Whether the pin's bit is set in `value`, a register of its port.
    pub open spec fn spec_is_set_in(self, value: u8) -> bool {
        (value >> self.1.spec_index()) & 0x01 != 0
    }

    /// The register that holds the brightness of the pin as an LED output.
    pub open spec fn spec_dim_register(self) -> Register {
        match (self.0, self.1) {
            (Port::Port0, PortPin::P0) => Register::Dim4,
            (Port::Port0, PortPin::P1) => Register::Dim5,
            (Port::Port0, PortPin::P2) => Register::Dim6,
            (Port::Port0, PortPin::P3) => Register::Dim7,
            (Port::Port0, PortPin::P4) => Register::Dim8,
            (Port::Port0, PortPin::P5) => Register::Dim9,
            (Port::Port0, PortPin::P6) => Register::Dim10,
            (Port::Port0, PortPin::P7) => Register::Dim11,
            (Port::Port1, PortPin::P0) => Register::Dim0,
            (Port::Port1, PortPin::P1) => Register::Dim1,
            (Port::Port1, PortPin::P2) => Register::Dim2,
            (Port::Port1, PortPin::P3) => Register::Dim3,
            (Port::Port1, PortPin::P4) => Register::Dim12,
            (Port::Port1, PortPin::P5) => Register::Dim13,
            (Port::Port1, PortPin::P6) => Register::Dim14,
            (Port::Port1, PortPin::P7) => Register::Dim15,
        }
    }

    /// Reads the pin's bit out of `value`, a register of its port.
    pub fn is_set_in(&self, value: u8) -> (set: bool)
        ensures
            set == self.spec_is_set_in(value),
            set <==> value & self.1.spec_bits() != 0,
    {
        let index = self.1.index();
        assert(((value >> index) & 0x01 != 0) <==> (value & (1u8 << index) != 0)) by (bit_vector)
            requires
                index < 8,
        ;
        ((value >> index) & 0x01) != 0
    }

    pub fn dim_register(&self) -> (register: Register)
        ensures
            register == self.spec_dim_register(),
    {
        match (self.0, self.1) {
            (Port::Port0, PortPin::P0) => Register::Dim4,
            (Port::Port0, PortPin::P1) => Register::Dim5,
            (Port::Port0, PortPin::P2) => Register::Dim6,
            (Port::Port0, PortPin::P3) => Register::Dim7,
            (Port::Port0, PortPin::P4) => Register::Dim8,
            (Port::Port0, PortPin::P5) => Register::Dim9,
            (Port::Port0, PortPin::P6) => Register::Dim10,
            (Port::Port0, PortPin::P7) => Register::Dim11,
            (Port::Port1, PortPin::P0) => Register::Dim0,
            (Port::Port1, PortPin::P1) => Register::Dim1,
            (Port::Port1, PortPin::P2) => Register::Dim2,
            (Port::Port1, PortPin::P3) => Register::Dim3,
            (Port::Port1, PortPin::P4) => Register::Dim12,
            (Port::Port1, PortPin::P5) => Register::Dim13,
            (Port::Port1, PortPin::P6) => Register::Dim14,
            (Port::Port1, PortPin::P7) => Register::Dim15,
        }
    }

    /// The level of the pin, from a reading of its port.
    pub fn state_in(&self, port_state: u8) -> (state: PinState)
        ensures
            state == PinState::of_bit(self.spec_is_set_in(port_state)),
    {
        PinState::from(self.is_set_in(port_state))
    }
}

impl From<bool> for PinState {
    fn from(value: bool) -> (state: PinState) {
        if value {
            PinState::Low
        } else {
            PinState::High
        }
    }
}

impl FromSpecImpl<bool> for PinState {
    open spec fn obeys_from_spec() -> bool {
        true
    }

    open spec fn from_spec(value: bool) -> PinState {
        PinState::of_bit(value)
    }
}

impl PinState {
    /// The level that a register bit stands for: a set bit reads as `Low`.
    pub open spec fn of_bit(value: bool) -> PinState {
        if value {
            PinState::Low
        } else {
            PinState::High
        }
    }
}

impl From<bool> for Port0OutputDriveMode {
    fn from(value: bool) -> (mode: Port0OutputDriveMode) {
        if value {
            Port0OutputDriveMode::OpenDrain
        } else {
            Port0OutputDriveMode::PushPull
        }
    }
}

impl FromSpecImpl<bool> for Port0OutputDriveMode {
    open spec fn obeys_from_spec() -> bool {
        true
    }

    open spec fn from_spec(value: bool) -> Port0OutputDriveMode {
        Port0OutputDriveMode::of_bit(value)
    }
}

impl PinMode {
    /// The mode of `pin` as its port's direction register and GPIO-mode switch
    /// register show it.
    ///
    /// A pin whose direction bit is set is an input. Otherwise it is an output
    /// if its bit in the switch register is set, and an LED output if that bit
    /// is clear.
    pub open spec fn spec_from_registers(pin: Pin, port_config: u8, led_mode_switch: u8)
        -> PinMode {
        if pin.spec_is_set_in(port_config) {
            PinMode::Input
        } else if pin.spec_is_set_in(led_mode_switch) {
            PinMode::Output
        } else {
            PinMode::Led
        }
    }

    pub fn from_registers(pin: Pin, port_config: u8, led_mode_switch: u8) -> (mode: PinMode)
        ensures
            mode == Self::spec_from_registers(pin, port_config, led_mode_switch),
    {
        let pin_config = pin.is_set_in(port_config);
        let pin_led_mode_switch = pin.is_set_in(led_mode_switch);
        match (pin_config, pin_led_mode_switch) {
            (true, _) => PinMode::Input,
            (false, true) => PinMode::Output,
            (false, false) => PinMode::Led,
        }
    }
}

impl DriveCurrent {
    /// The two bits that stand for the setting in the control register.
    pub open spec fn spec_code(self) -> u8 {
        match self {
            DriveCurrent::Max => 0,
            DriveCurrent::High => 1,
            DriveCurrent::Mid => 2,
            DriveCurrent::Low => 3,
        }
    }

    /// The setting that the control register `ctl` holds in its two lowest bits.
    pub open spec fn spec_from_ctl(ctl: u8) -> DriveCurrent {
        let code = ctl & 0x03;
        if code == 0 {
            DriveCurrent::Max
        } else if code == 1 {
            DriveCurrent::High
        } else if code == 2 {
            DriveCurrent::Mid
        } else {
            DriveCurrent::Low
        }
    }

    pub fn code(self) -> (code: u8)
        ensures
            code == self.spec_code(),
            code <= 3,
    {
        match self {
            DriveCurrent::Max => 0,
            DriveCurrent::High => 1,
            DriveCurrent::Mid => 2,
            DriveCurrent::Low => 3,
        }
    }

    pub fn from_ctl(ctl: u8) -> (current: DriveCurrent)
        ensures
            current == Self::spec_from_ctl(ctl),
            current.spec_code() == ctl & 0x03,
    {
        let code = ctl & 0x03;
        assert(ctl & 0x03 <= 3) by (bit_vector);
        match code {
            0 => DriveCurrent::Max,
            1 => DriveCurrent::High,
            2 => DriveCurrent::Mid,
            _ => DriveCurrent::Low,
        }
    }
}

impl Port0OutputDriveMode {
    /// The drive mode that a register bit stands for: a set bit reads as
    /// `OpenDrain`.
    pub open spec fn of_bit(value: bool) -> Port0OutputDriveMode {
        if value {
            Port0OutputDriveMode::OpenDrain
        } else {
            Port0OutputDriveMode::PushPull
        }
    }

    /// The drive mode as bit 4 of the control register `ctl` shows it.
    pub open spec fn spec_from_ctl(ctl: u8) -> Port0OutputDriveMode {
        Port0OutputDriveMode::of_bit((ctl >> 4) & 0x01 != 0)
    }

    pub fn from_ctl(ctl: u8) -> (mode: Port0OutputDriveMode)
        ensures
            mode == Self::spec_from_ctl(ctl),
    {
        Port0OutputDriveMode::from(((ctl >> 4) & 0x01) != 0)
    }
}

} // verus!
