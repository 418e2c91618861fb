//! The operations of the chip, each as the register accesses it takes.

use vstd::prelude::*;
use crate::aw9523b::access::{clear_register_bits, set_register_bits, Access, BitChange};
use crate::aw9523b::pins::{DriveCurrent, Pin, PinMode, PinState, Port, Port0OutputDriveMode};
use crate::aw9523b::register::Register;

verus! {

/// Bit 4 of the control register: the drive mode of port 0.
pub const CTL_PORT0_DRIVE_MODE: u8 = 0x10;

/// The two lowest bits of the control register: the drive current.
pub const CTL_DRIVE_CURRENT: u8 = 0x03;

/// An AW9523B on a bus: the bus it is reached over and its address there.
///
/// The methods name the operations of the chip. Each returns the accesses
/// that carry the operation out, in the order to make them; none touches the
/// bus.
pub struct Aw9523b<I2C> {
    i2c: I2C,
    addr: u8,
}

impl<I2C> Aw9523b<I2C> {
    /// The bus the chip is reached over.
    pub closed spec fn spec_i2c(&self) -> I2C {
        self.i2c
    }

    /// The chip's address on the bus.
    pub closed spec fn spec_addr(&self) -> u8 {
        self.addr
    }

    /// Creates a new instance of an AW9523B driver.
    pub fn new(i2c: I2C, addr: u8) -> (driver: Self)
        ensures
            driver.spec_i2c() == i2c,
            driver.spec_addr() == addr,
    {
        Self { i2c, addr }
    }

    /// The chip's address on the bus.
    pub fn addr(&self) -> (addr: u8)
        ensures
            addr == self.spec_addr(),
    {
        self.addr
    }

    /// The bus, to carry out accesses on.
    pub fn i2c(&mut self) -> (i2c: &mut I2C)
        ensures
            *i2c == old(self).spec_i2c(),
            final(self).spec_i2c() == *final(i2c),
            final(self).spec_addr() == old(self).spec_addr(),
    {
        &mut self.i2c
    }

    /// Gives the bus back.
    pub fn release(self) -> (i2c: I2C)
        ensures
            i2c == self.spec_i2c(),
    {
        self.i2c
    }

    /// Sends a command to perform a software reset.
    pub fn software_reset(&self) -> (access: Access)
        ensures
            access == Access::Write(Register::SwRstn, 0x00),
    {
        Access::Write(Register::SwRstn, 0x00)
    }

    /// Reads the port input state.
    pub fn read_port(&self, port: Port) -> (access: Access)
        ensures
            access == Access::Read(port.spec_input_register()),
    {
        Access::Read(port.input_register())
    }

    /// Reads the input state of the pin's port; [`Pin::state_in`] picks the
    /// pin out of it.
    pub fn read_pin(&self, pin: Pin) -> (access: Access)
        ensures
            access == Access::Read(pin.0.spec_input_register()),
    {
        self.read_port(pin.0)
    }

    pub fn get_port_output_state(&self, port: Port) -> (access: Access)
        ensures
            access == Access::Read(port.spec_output_register()),
    {
        Access::Read(port.output_register())
    }

    pub fn set_port_output_state(&self, port: Port, value: u8) -> (access: Access)
        ensures
            access == Access::Write(port.spec_output_register(), value),
    {
        Access::Write(port.output_register(), value)
    }

    /// Reads the output state of the pin's port; [`Pin::state_in`] picks the
    /// pin out of it.
    pub fn get_pin_output_state(&self, pin: Pin) -> (access: Access)
        ensures
            access == Access::Read(pin.0.spec_output_register()),
    {
        self.get_port_output_state(pin.0)
    }

    /// Drives the pin high by setting its output bit, low by clearing it.
    pub fn set_pin_output_state(&self, pin: Pin, state: PinState) -> (access: Access)
        ensures
            access == Access::Modify(
                pin.0.spec_output_register(),
                match state {
                    PinState::Low => BitChange::spec_clear_bits(pin.1.spec_bits()),
                    PinState::High => BitChange::spec_set_bits(pin.1.spec_bits()),
                },
            ),
    {
        let register = pin.0.output_register();
        let bits = pin.1.bits();
        match state {
            PinState::Low => clear_register_bits(register, bits),
            PinState::High => set_register_bits(register, bits),
        }
    }

    pub fn get_port_config(&self, port: Port) -> (access: Access)
        ensures
            access == Access::Read(port.spec_config_register()),
    {
        Access::Read(port.config_register())
    }

    pub fn set_port_config(&self, port: Port, value: u8) -> (access: Access)
        ensures
            access == Access::Write(port.spec_config_register(), value),
    {
        Access::Write(port.config_register(), value)
    }

    /// Reads the direction register and the GPIO-mode switch register of the
    /// pin's port, in this order; [`PinMode::from_registers`] tells the pin's
    /// mode from the two values.
    pub fn get_pin_config(&self, pin: Pin) -> (accesses: (Access, Access))
        ensures
            accesses.0 == Access::Read(pin.0.spec_config_register()),
            accesses.1 == Access::Read(pin.0.spec_led_mode_switch_register()),
    {
        (self.get_port_config(pin.0), self.get_port_led_mode_switch(pin.0))
    }

    /// The direction bit of the pin, then its GPIO-mode switch bit: both set for
    /// an input, the first cleared and the second set for an output, both
    /// cleared for an LED output.
    pub fn set_pin_config(&self, pin: Pin, mode: PinMode) -> (accesses: (Access, Access))
        ensures
            accesses == Self::pin_config_accesses(pin, mode),
    {
        let config_register = pin.0.config_register();
        let led_mode_switch_register = pin.0.led_mode_switch_register();
        let bits = pin.1.bits();
        match mode {
            PinMode::Input => (
                set_register_bits(config_register, bits),
                set_register_bits(led_mode_switch_register, bits),
            ),
            PinMode::Output => (
                clear_register_bits(config_register, bits),
                set_register_bits(led_mode_switch_register, bits),
            ),
            PinMode::Led => (
                clear_register_bits(config_register, bits),
                clear_register_bits(led_mode_switch_register, bits),
            ),
        }
    }

    /// The accesses that put `pin` into `mode`.
    pub open spec fn pin_config_accesses(pin: Pin, mode: PinMode) -> (Access, Access) {
        let bits = pin.1.spec_bits();
        (
            Access::Modify(
                pin.0.spec_config_register(),
                if mode == PinMode::Input {
                    BitChange::spec_set_bits(bits)
                } else {
                    BitChange::spec_clear_bits(bits)
                },
            ),
            Access::Modify(
                pin.0.spec_led_mode_switch_register(),
                if mode == PinMode::Led {
                    BitChange::spec_clear_bits(bits)
                } else {
                    BitChange::spec_set_bits(bits)
                },
            ),
        )
    }

    /// Sets the brightness of the pin as an LED output.
    pub fn set_pin_led_pwm(&self, pin: Pin, pwm: u8) -> (access: Access)
        ensures
            access == Access::Write(pin.spec_dim_register(), pwm),
    {
        Access::Write(pin.dim_register(), pwm)
    }

    pub fn get_port_interrupt_config(&self, port: Port) -> (access: Access)
        ensures
            access == Access::Read(port.spec_interrupt_register()),
    {
        Access::Read(port.interrupt_register())
    }

    pub fn set_port_interrupt_config(&self, port: Port, value: u8) -> (access: Access)
        ensures
            access == Access::Write(port.spec_interrupt_register(), value),
    {
        Access::Write(port.interrupt_register(), value)
    }

    /// Reads the interrupt register of the pin's port; [`Pin::is_set_in`]
    /// picks the pin's bit out of it.
    pub fn get_pin_interrupt_config(&self, pin: Pin) -> (access: Access)
        ensures
            access == Access::Read(pin.0.spec_interrupt_register()),
    {
        self.get_port_interrupt_config(pin.0)
    }

    /// Lets the pin raise interrupts by clearing its bit in the interrupt
    /// register, stops it by setting the bit.
    pub fn enable_pin_interrupt(&self, pin: Pin, enable: bool) -> (access: Access)
        ensures
            access == Access::Modify(
                pin.0.spec_interrupt_register(),
                if enable {
                    BitChange::spec_clear_bits(pin.1.spec_bits())
                } else {
                    BitChange::spec_set_bits(pin.1.spec_bits())
                },
            ),
    {
        let register = pin.0.interrupt_register();
        let bits = pin.1.bits();
        if enable {
            clear_register_bits(register, bits)
        } else {
            set_register_bits(register, bits)
        }
    }

    pub fn read_device_id(&self) -> (access: Access)
        ensures
            access == Access::Read(Register::Id),
    {
        Access::Read(Register::Id)
    }

    /// Reads the control register; [`Port0OutputDriveMode::from_ctl`] tells the
    /// drive mode from it.
    pub fn get_port0_drive_mode(&self) -> (access: Access)
        ensures
            access == Access::Read(Register::Ctl),
    {
        Access::Read(Register::Ctl)
    }

    /// Clears the drive mode bit of the control register for open drain, sets
    /// it for push-pull.
    pub fn set_port0_drive_mode(&self, mode: Port0OutputDriveMode) -> (access: Access)
        ensures
            access == Access::Modify(
                Register::Ctl,
                match mode {
                    Port0OutputDriveMode::OpenDrain => BitChange::spec_clear_bits(
                        CTL_PORT0_DRIVE_MODE,
                    ),
                    Port0OutputDriveMode::PushPull => BitChange::spec_set_bits(
                        CTL_PORT0_DRIVE_MODE,
                    ),
                },
            ),
    {
        match mode {
            Port0OutputDriveMode::OpenDrain => clear_register_bits(
                Register::Ctl,
                CTL_PORT0_DRIVE_MODE,
            ),
            Port0OutputDriveMode::PushPull => set_register_bits(Register::Ctl, CTL_PORT0_DRIVE_MODE),
        }
    }

    /// Reads the control register; [`DriveCurrent::from_ctl`] tells the drive
    /// current from it.
    pub fn get_drive_current(&self) -> (access: Access)
        ensures
            access == Access::Read(Register::Ctl),
    {
        Access::Read(Register::Ctl)
    }

    /// Replaces the two drive current bits of the control register.
    pub fn set_drive_current(&self, drive_current: DriveCurrent) -> (access: Access)
        ensures
            access == Access::Modify(
                Register::Ctl,
                BitChange { clear: CTL_DRIVE_CURRENT, set: drive_current.spec_code() },
            ),
    {
        Access::Modify(
            Register::Ctl,
            BitChange { clear: CTL_DRIVE_CURRENT, set: drive_current.code() },
        )
    }

    pub fn get_port_led_mode_switch(&self, port: Port) -> (access: Access)
        ensures
            access == Access::Read(port.spec_led_mode_switch_register()),
    {
        Access::Read(port.led_mode_switch_register())
    }

    pub fn set_port_led_mode_switch(&self, port: Port, value: u8) -> (access: Access)
        ensures
            access == Access::Write(port.spec_led_mode_switch_register(), value),
    {
        Access::Write(port.led_mode_switch_register(), value)
    }
}

/// A pin reads back in the mode it has been put into, whatever the registers
/// held before.
pub proof fn lemma_pin_config_reads_back(pin: Pin, mode: PinMode, port_config: u8, switch: u8)
    ensures
        ({
            let accesses = Aw9523b::<()>::pin_config_accesses(pin, mode);
            PinMode::spec_from_registers(
                pin,
                accesses.0.value_after(port_config),
                accesses.1.value_after(switch),
            ) == mode
        }),
{
    let i = pin.1.spec_index();
    assert(i < 8);
    assert((((port_config & !0u8) | (1u8 << i)) >> i) & 0x01 != 0) by (bit_vector)
        requires
            i < 8,
    ;
    assert((((port_config & !(1u8 << i)) | 0u8) >> i) & 0x01 == 0) by (bit_vector)
        requires
            i < 8,
    ;
    assert((((switch & !0u8) | (1u8 << i)) >> i) & 0x01 != 0) by (bit_vector)
        requires
            i < 8,
    ;
    assert((((switch & !(1u8 << i)) | 0u8) >> i) & 0x01 == 0) by (bit_vector)
        requires
            i < 8,
    ;
}

/// Putting a pin into a mode leaves the mode of every other pin of its port
/// as it was.
pub proof fn lemma_pin_config_leaves_other_pins(
    pin: Pin,
    mode: PinMode,
    other: Pin,
    port_config: u8,
    switch: u8,
)
    requires
        other.1 != pin.1,
    ensures
        ({
            let accesses = Aw9523b::<()>::pin_config_accesses(pin, mode);
            PinMode::spec_from_registers(
                other,
                accesses.0.value_after(port_config),
                accesses.1.value_after(switch),
            ) == PinMode::spec_from_registers(other, port_config, switch)
        }),
{
    let i = pin.1.spec_index();
    let j = other.1.spec_index();
    assert(i < 8 && j < 8 && i != j);
    assert((((port_config & !0u8) | (1u8 << i)) >> j) & 0x01 == (port_config >> j) & 0x01)
        by (bit_vector)
        requires
            i < 8,
            j < 8,
            i != j,
    ;
    assert((((port_config & !(1u8 << i)) | 0u8) >> j) & 0x01 == (port_config >> j) & 0x01)
        by (bit_vector)
        requires
            i < 8,
            j < 8,
            i != j,
    ;
    assert((((switch & !0u8) | (1u8 << i)) >> j) & 0x01 == (switch >> j) & 0x01) by (bit_vector)
        requires
            i < 8,
            j < 8,
            i != j,
    ;
    assert((((switch & !(1u8 << i)) | 0u8) >> j) & 0x01 == (switch >> j) & 0x01) by (bit_vector)
        requires
            i < 8,
            j < 8,
            i != j,
    ;
}

/// Writing a drive current and reading the control register back gives the
/// same drive current, and leaves the other bits of the register alone.
pub proof fn lemma_drive_current_reads_back(drive_current: DriveCurrent, ctl: u8)
    ensures
        ({
            let after = BitChange {
                clear: CTL_DRIVE_CURRENT,
                set: drive_current.spec_code(),
            }.spec_apply(ctl);
            &&& DriveCurrent::spec_from_ctl(after) == drive_current
            &&& after & !CTL_DRIVE_CURRENT == ctl & !CTL_DRIVE_CURRENT
        }),
{
    let code = drive_current.spec_code();
    assert(code <= 3);
    assert(((ctl & !0x03u8) | code) & 0x03 == code) by (bit_vector)
        requires
            code <= 3,
    ;
    assert(((ctl & !0x03u8) | code) & !0x03u8 == ctl & !0x03u8) by (bit_vector)
        requires
            code <= 3,
    ;
}

} // verus!
