//! The port expander of the board as a value whose type says how far its
//! bring-up has come.

use std::marker::PhantomData;
use vstd::prelude::*;
use crate::aw9523b::access::Access;
use crate::aw9523b::driver::Aw9523b;
use crate::aw9523b::error::Error;
use crate::aw9523b::pins::PinState;
use crate::board::wiring::{setup_accesses, spec_setup_accesses, Button, Colour, Led};

verus! {

/// The chip is held in reset.
pub struct ResetAsserted;

/// The chip is out of reset and has not been set up.
pub struct Uninitialized;

/// The chip is set up: buttons can be read and LEDs set.
pub struct Ready;

/// The port expander with its reset and interrupt lines, in the stage `T` of
/// its bring-up.
///
/// The methods decide what is to be done to the hardware and return it: a
/// level for the reset line, or accesses for the chip. The caller does it.
pub struct IoExpander<T, R, I, I2C> {
    driver: Aw9523b<I2C>,
    reset_gpio: R,
    int_gpio: I,
    _marker: PhantomData<T>,
}

impl<T, R, I, I2C> IoExpander<T, R, I, I2C> {
    pub closed spec fn spec_driver(&self) -> Aw9523b<I2C> {
        self.driver
    }

    pub closed spec fn spec_reset_gpio(&self) -> R {
        self.reset_gpio
    }

    pub closed spec fn spec_int_gpio(&self) -> I {
        self.int_gpio
    }

    /// Whether `self` holds the same chip and lines as `other`, which may be in
    /// another stage.
    pub open spec fn same_hardware<U>(&self, other: &IoExpander<U, R, I, I2C>) -> bool {
        &&& self.spec_driver() == other.spec_driver()
        &&& self.spec_reset_gpio() == other.spec_reset_gpio()
        &&& self.spec_int_gpio() == other.spec_int_gpio()
    }

    /// The chip, to carry out accesses on.
    pub fn driver(&mut self) -> (driver: &mut Aw9523b<I2C>)
        ensures
            *driver == old(self).spec_driver(),
            final(self).spec_driver() == *final(driver),
            final(self).spec_reset_gpio() == old(self).spec_reset_gpio(),
            final(self).spec_int_gpio() == old(self).spec_int_gpio(),
    {
        &mut self.driver
    }

    /// The reset line, to put a level on.
    pub fn reset_gpio(&mut self) -> (reset_gpio: &mut R)
        ensures
            *reset_gpio == old(self).spec_reset_gpio(),
            final(self).spec_reset_gpio() == *final(reset_gpio),
            final(self).spec_driver() == old(self).spec_driver(),
            final(self).spec_int_gpio() == old(self).spec_int_gpio(),
    {
        &mut self.reset_gpio
    }
}

impl<R, I, I2C> IoExpander<ResetAsserted, R, I, I2C> {
    pub fn new(driver: Aw9523b<I2C>, reset_gpio: R, int_gpio: I) -> (expander: Self)
        ensures
            expander.spec_driver() == driver,
            expander.spec_reset_gpio() == reset_gpio,
            expander.spec_int_gpio() == int_gpio,
    {
        Self { driver, reset_gpio, int_gpio, _marker: PhantomData }
    }

    /// Moves on to the stage in which the chip can be set up; the level
    /// returned is to be put on the reset line.
    pub fn enable(self) -> (enabled: (IoExpander<Uninitialized, R, I, I2C>, PinState))
        ensures
            enabled.0.same_hardware(&self),
            enabled.1 == PinState::Low,
    {
        (
            IoExpander {
                driver: self.driver,
                reset_gpio: self.reset_gpio,
                int_gpio: self.int_gpio,
                _marker: PhantomData,
            },
            PinState::Low,
        )
    }
}

impl<R, I, I2C> IoExpander<Uninitialized, R, I, I2C> {
    /// Goes back to holding the chip in reset; the level returned is to be put
    /// on the reset line.
    pub fn reset(self) -> (reset: (IoExpander<ResetAsserted, R, I, I2C>, PinState))
        ensures
            reset.0.same_hardware(&self),
            reset.1 == PinState::Low,
    {
        (
            IoExpander {
                driver: self.driver,
                reset_gpio: self.reset_gpio,
                int_gpio: self.int_gpio,
                _marker: PhantomData,
            },
            PinState::Low,
        )
    }

    /// The accesses that set the chip up for the board.
    pub fn setup_for_normal_operation(&self) -> (accesses: Vec<Access>)
        ensures
            accesses@ == spec_setup_accesses(),
    {
        setup_accesses(&self.driver)
    }

    /// Ends the setup with what became of its accesses: the expander is ready
    /// if all of them went through, else the first failure is handed on.
    pub fn finish_setup<E>(self, outcome: Result<(), Error<E>>) -> (ready: Result<
        IoExpander<Ready, R, I, I2C>,
        Error<E>,
    >)
        ensures
            match outcome {
                Ok(()) => ready matches Ok(expander) && expander.same_hardware(&self),
                Err(e) => ready matches Err(handed_on) && handed_on == e,
            },
    {
        match outcome {
            Ok(()) => Ok(
                IoExpander {
                    driver: self.driver,
                    reset_gpio: self.reset_gpio,
                    int_gpio: self.int_gpio,
                    _marker: PhantomData,
                },
            ),
            Err(e) => Err(e),
        }
    }
}

impl<R, I, I2C> IoExpander<Ready, R, I, I2C> {
    /// The read that shows whether `button` is pressed;
    /// [`Button::is_pressed_in`] tells it from the value read.
    pub fn read_button(&self, button: Button) -> (access: Access)
        ensures
            access == Access::Read(button.spec_pin().0.spec_input_register()),
    {
        self.driver.read_pin(button.pin())
    }

    pub fn is_bt_pressed(&self) -> (access: Access)
        ensures
            access == Access::Read(Button::Bt.spec_pin().0.spec_input_register()),
    {
        self.read_button(Button::Bt)
    }

    pub fn is_play_pressed(&self) -> (access: Access)
        ensures
            access == Access::Read(Button::Play.spec_pin().0.spec_input_register()),
    {
        self.read_button(Button::Play)
    }

    pub fn is_plus_pressed(&self) -> (access: Access)
        ensures
            access == Access::Read(Button::Plus.spec_pin().0.spec_input_register()),
    {
        self.read_button(Button::Plus)
    }

    pub fn is_minus_pressed(&self) -> (access: Access)
        ensures
            access == Access::Read(Button::Minus.spec_pin().0.spec_input_register()),
    {
        self.read_button(Button::Minus)
    }

    pub fn set_led0(&self, r: u8, g: u8, b: u8) -> (accesses: (Access, Access, Access))
        ensures
            accesses == Led::Status.spec_colour_accesses(r, g, b),
    {
        Led::Status.colour_accesses(&self.driver, r, g, b)
    }

    pub fn set_led1(&self, r: u8, g: u8, b: u8) -> (accesses: (Access, Access, Access))
        ensures
            accesses == Led::Source.spec_colour_accesses(r, g, b),
    {
        Led::Source.colour_accesses(&self.driver, r, g, b)
    }

    /// The write that sets the brightness of one colour of an LED.
    pub fn set_led_colour(&self, led: Led, colour: Colour, pwm: u8) -> (access: Access)
        ensures
            access == Access::Write(led.spec_pin(colour).spec_dim_register(), pwm),
    {
        self.driver.set_pin_led_pwm(led.pin(colour), pwm)
    }

    pub fn set_led0_r(&self, pwm: u8) -> (access: Access)
        ensures
            access == Access::Write(Led::Status.spec_pin(Colour::Red).spec_dim_register(), pwm),
    {
        self.set_led_colour(Led::Status, Colour::Red, pwm)
    }

    pub fn set_led0_g(&self, pwm: u8) -> (access: Access)
        ensures
            access == Access::Write(Led::Status.spec_pin(Colour::Green).spec_dim_register(), pwm),
    {
        self.set_led_colour(Led::Status, Colour::Green, pwm)
    }

    pub fn set_led0_b(&self, pwm: u8) -> (access: Access)
        ensures
            access == Access::Write(Led::Status.spec_pin(Colour::Blue).spec_dim_register(), pwm),
    {
        self.set_led_colour(Led::Status, Colour::Blue, pwm)
    }

    pub fn set_led1_r(&self, pwm: u8) -> (access: Access)
        ensures
            access == Access::Write(Led::Source.spec_pin(Colour::Red).spec_dim_register(), pwm),
    {
        self.set_led_colour(Led::Source, Colour::Red, pwm)
    }

    pub fn set_led1_g(&self, pwm: u8) -> (access: Access)
        ensures
            access == Access::Write(Led::Source.spec_pin(Colour::Green).spec_dim_register(), pwm),
    {
        self.set_led_colour(Led::Source, Colour::Green, pwm)
    }

    pub fn set_led1_b(&self, pwm: u8) -> (access: Access)
        ensures
            access == Access::Write(Led::Source.spec_pin(Colour::Blue).spec_dim_register(), pwm),
    {
        self.set_led_colour(Led::Source, Colour::Blue, pwm)
    }
}

} // verus!
