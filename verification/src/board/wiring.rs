//! Where the buttons and LEDs of the board sit on the port expander, and the
//! accesses that set the expander up for them.

use vstd::prelude::*;
use crate::aw9523b::access::{Access, BitChange};
use crate::aw9523b::driver::Aw9523b;
use crate::aw9523b::pins::{Pin, PinMode, PinState, Port, PortPin};
use crate::aw9523b::register::Register;

verus! {

/// The buttons that are read through the port expander.
#[derive(Clone, Copy, Debug, PartialEq, Eq, Structural, Hash)]
pub enum Button {
    Bt,
    Play,
    Plus,
    Minus,
}

/// The two RGB LEDs of the board.
#[derive(Clone, Copy, Debug, PartialEq, Eq, Structural, Hash)]
pub enum Led {
    /// LED 0, which shows the status of the device.
    Status,
    /// LED 1, which shows the audio source.
    Source,
}

/// One colour of an RGB LED.
#[derive(Clone, Copy, Debug, PartialEq, Eq, Structural, Hash)]
pub enum Colour {
    Red,
    Green,
    Blue,
}

impl Button {
    /// The pin of the port expander that the button is wired to.
    pub open spec fn spec_pin(self) -> Pin {
        match self {
            Button::Bt => Pin(Port::Port0, PortPin::P2),
            Button::Play => Pin(Port::Port0, PortPin::P3),
            Button::Plus => Pin(Port::Port0, PortPin::P5),
            Button::Minus => Pin(Port::Port0, PortPin::P4),
        }
    }

    pub fn pin(self) -> (pin: Pin)
        ensures
            pin == self.spec_pin(),
    {
        match self {
            Button::Bt => Pin(Port::Port0, PortPin::P2),
            Button::Play => Pin(Port::Port0, PortPin::P3),
            Button::Plus => Pin(Port::Port0, PortPin::P5),
            Button::Minus => Pin(Port::Port0, PortPin::P4),
        }
    }

    /// Whether the button is pressed, from a reading of the input register of
    /// its port: it is when its pin reads as `Low`.
    pub fn is_pressed_in(self, port_state: u8) -> (pressed: bool)
        ensures
            pressed == (PinState::of_bit(self.spec_pin().spec_is_set_in(port_state))
                == PinState::Low),
            pressed == self.spec_pin().spec_is_set_in(port_state),
    {
        matches!(self.pin().state_in(port_state), PinState::Low)
    }
}

impl Led {
    /// The pin of the port expander that drives `colour` of the LED.
    pub open spec fn spec_pin(self, colour: Colour) -> Pin {
        match (self, colour) {
            (Led::Status, Colour::Red) => Pin(Port::Port1, PortPin::P0),
            (Led::Status, Colour::Green) => Pin(Port::Port1, PortPin::P2),
            (Led::Status, Colour::Blue) => Pin(Port::Port1, PortPin::P1),
            (Led::Source, Colour::Red) => Pin(Port::Port1, PortPin::P4),
            (Led::Source, Colour::Green) => Pin(Port::Port1, PortPin::P6),
            (Led::Source, Colour::Blue) => Pin(Port::Port1, PortPin::P5),
        }
    }

    pub fn pin(self, colour: Colour) -> (pin: Pin)
        ensures
            pin == self.spec_pin(colour),
    {
        match (self, colour) {
            (Led::Status, Colour::Red) => Pin(Port::Port1, PortPin::P0),
            (Led::Status, Colour::Green) => Pin(Port::Port1, PortPin::P2),
            (Led::Status, Colour::Blue) => Pin(Port::Port1, PortPin::P1),
            (Led::Source, Colour::Red) => Pin(Port::Port1, PortPin::P4),
            (Led::Source, Colour::Green) => Pin(Port::Port1, PortPin::P6),
            (Led::Source, Colour::Blue) => Pin(Port::Port1, PortPin::P5),
        }
    }

    /// The three writes that set the LED to a colour: red, green, blue.
    pub open spec fn spec_colour_accesses(self, r: u8, g: u8, b: u8) -> (Access, Access, Access) {
        (
            Access::Write(self.spec_pin(Colour::Red).spec_dim_register(), r),
            Access::Write(self.spec_pin(Colour::Green).spec_dim_register(), g),
            Access::Write(self.spec_pin(Colour::Blue).spec_dim_register(), b),
        )
    }

    pub fn colour_accesses<I2C>(self, driver: &Aw9523b<I2C>, r: u8, g: u8, b: u8) -> (accesses: (
        Access,
        Access,
        Access,
    ))
        ensures
            accesses == self.spec_colour_accesses(r, g, b),
    {
        (
            driver.set_pin_led_pwm(self.pin(Colour::Red), r),
            driver.set_pin_led_pwm(self.pin(Colour::Green), g),
            driver.set_pin_led_pwm(self.pin(Colour::Blue), b),
        )
    }
}

/// The two accesses that put `pin` into `mode`, as a sequence.
pub open spec fn pin_config_sequence(pin: Pin, mode: PinMode) -> Seq<Access> {
    let accesses = Aw9523b::<()>::pin_config_accesses(pin, mode);
    seq![accesses.0, accesses.1]
}

/// The access that lets `pin` raise interrupts.
pub open spec fn interrupt_enable_access(pin: Pin) -> Access {
    Access::Modify(
        pin.0.spec_interrupt_register(),
        BitChange::spec_clear_bits(pin.1.spec_bits()),
    )
}

/// The accesses that set the port expander up for the board, in order: a
/// software reset; the four buttons as inputs; interrupts for the four
/// buttons; the three pins of the status LED and the three of the source LED
/// as LED outputs.
pub open spec fn spec_setup_accesses() -> Seq<Access> {
    seq![Access::Write(Register::SwRstn, 0x00)]
        + pin_config_sequence(Button::Bt.spec_pin(), PinMode::Input)
        + pin_config_sequence(Button::Play.spec_pin(), PinMode::Input)
        + pin_config_sequence(Button::Plus.spec_pin(), PinMode::Input)
        + pin_config_sequence(Button::Minus.spec_pin(), PinMode::Input)
        + seq![
            interrupt_enable_access(Button::Bt.spec_pin()),
            interrupt_enable_access(Button::Play.spec_pin()),
            interrupt_enable_access(Button::Plus.spec_pin()),
            interrupt_enable_access(Button::Minus.spec_pin()),
        ]
        + pin_config_sequence(Led::Status.spec_pin(Colour::Red), PinMode::Led)
        + pin_config_sequence(Led::Status.spec_pin(Colour::Green), PinMode::Led)
        + pin_config_sequence(Led::Status.spec_pin(Colour::Blue), PinMode::Led)
        + pin_config_sequence(Led::Source.spec_pin(Colour::Red), PinMode::Led)
        + pin_config_sequence(Led::Source.spec_pin(Colour::Green), PinMode::Led)
        + pin_config_sequence(Led::Source.spec_pin(Colour::Blue), PinMode::Led)
}

fn push_pin_config<I2C>(accesses: &mut Vec<Access>, driver: &Aw9523b<I2C>, pin: Pin, mode: PinMode)
    ensures
        final(accesses)@ == old(accesses)@ + pin_config_sequence(pin, mode),
{
    let (first, second) = driver.set_pin_config(pin, mode);
    accesses.push(first);
    accesses.push(second);
    assert(accesses@ =~= old(accesses)@ + pin_config_sequence(pin, mode));
}

/// Lists the accesses that set the port expander up for the board.
pub fn setup_accesses<I2C>(driver: &Aw9523b<I2C>) -> (accesses: Vec<Access>)
    ensures
        accesses@ == spec_setup_accesses(),
        accesses@.len() == 25,
{
    let mut accesses: Vec<Access> = Vec::new();
    accesses.push(driver.software_reset());
    assert(accesses@ =~= seq![Access::Write(Register::SwRstn, 0x00)]);

    // Configure button GPIOs as inputs
    push_pin_config(&mut accesses, driver, Button::Bt.pin(), PinMode::Input);
    push_pin_config(&mut accesses, driver, Button::Play.pin(), PinMode::Input);
    push_pin_config(&mut accesses, driver, Button::Plus.pin(), PinMode::Input);
    push_pin_config(&mut accesses, driver, Button::Minus.pin(), PinMode::Input);
    let ghost inputs = accesses@;

    // Enable interrupts on button GPIOs
    accesses.push(driver.enable_pin_interrupt(Button::Bt.pin(), true));
    accesses.push(driver.enable_pin_interrupt(Button::Play.pin(), true));
    accesses.push(driver.enable_pin_interrupt(Button::Plus.pin(), true));
    accesses.push(driver.enable_pin_interrupt(Button::Minus.pin(), true));
    assert(accesses@ =~= inputs + seq![
        interrupt_enable_access(Button::Bt.spec_pin()),
        interrupt_enable_access(Button::Play.spec_pin()),
        interrupt_enable_access(Button::Plus.spec_pin()),
        interrupt_enable_access(Button::Minus.spec_pin()),
    ]);

    // Configure the LED GPIOs as LED outputs
    push_pin_config(&mut accesses, driver, Led::Status.pin(Colour::Red), PinMode::Led);
    push_pin_config(&mut accesses, driver, Led::Status.pin(Colour::Green), PinMode::Led);
    push_pin_config(&mut accesses, driver, Led::Status.pin(Colour::Blue), PinMode::Led);
    push_pin_config(&mut accesses, driver, Led::Source.pin(Colour::Red), PinMode::Led);
    push_pin_config(&mut accesses, driver, Led::Source.pin(Colour::Green), PinMode::Led);
    push_pin_config(&mut accesses, driver, Led::Source.pin(Colour::Blue), PinMode::Led);
    accesses
}

/// The setup never writes to a register that only the chip writes, so no
/// access of it is refused.
pub proof fn lemma_setup_writes_no_read_only_register(i: int)
    requires
        0 <= i < spec_setup_accesses().len(),
    ensures
        !spec_setup_accesses()[i].spec_register().spec_is_read_only(),
{
}

} // verus!
