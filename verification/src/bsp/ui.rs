//! The user interface of the board: the buttons and LEDs behind the port
//! expander, and the power button on a pin of its own.

use vstd::prelude::*;
use vstd::std_specs::convert::FromSpecImpl;
use crate::aw9523b::access::Access;
use crate::aw9523b::driver::Aw9523b;
use crate::aw9523b::error::Error as AwError;
use crate::aw9523b::pins::PinState;
use crate::board::wiring::{setup_accesses, spec_setup_accesses, Button, Led};
use crate::time::Ms;

verus! {

/// How long the port expander is given after its reset line is released.
pub const RESET_RELEASE_DELAY_MS: usize = 10;

/// Why an operation of the user interface did not go through.
#[derive(Debug)]
pub enum Error<E> {
    UsedBeforeInitialization,
    IoExpanderError(AwError<E>),
}

impl<E> From<AwError<E>> for Error<E> {
    fn from(value: AwError<E>) -> (error: Self) {
        Error::IoExpanderError(value)
    }
}

impl<E> FromSpecImpl<AwError<E>> for Error<E> {
    open spec fn obeys_from_spec() -> bool {
        true
    }

    open spec fn from_spec(value: AwError<E>) -> Self {
        Error::IoExpanderError(value)
    }
}

/// One thing to do to the hardware while the user interface is brought up.
#[derive(Clone, Copy, Debug, PartialEq, Eq, Structural, Hash)]
pub enum Step {
    /// Put the level on the reset line of the port expander.
    ResetLine(PinState),
    /// Let the time pass.
    Wait(Ms),
    /// Make the access to the port expander.
    Chip(Access),
}

/// The steps that bring the user interface up, in order: release the reset
/// line, wait, then set the port expander up for the board.
pub open spec fn spec_initialize_steps() -> Seq<Step> {
    seq![Step::ResetLine(PinState::High), Step::Wait(Ms(RESET_RELEASE_DELAY_MS))]
        + spec_setup_accesses().map_values(|access: Access| Step::Chip(access))
}

/// The user interface hardware and whether it has been brought up.
///
/// The methods decide what is to be done to the hardware and return it; the
/// caller does it.
pub struct Ui<R, I, P, I2C> {
    is_initialized: bool,
    io_expander: Aw9523b<I2C>,
    io_exp_reset_gpio: R,
    io_exp_int_gpio: I,
    power_button_gpio: P,
}

impl<R, I, P, I2C> Ui<R, I, P, I2C> {
    pub closed spec fn spec_is_initialized(&self) -> bool {
        self.is_initialized
    }

    pub closed spec fn spec_io_expander(&self) -> Aw9523b<I2C> {
        self.io_expander
    }

    pub closed spec fn spec_io_exp_reset_gpio(&self) -> R {
        self.io_exp_reset_gpio
    }

    pub closed spec fn spec_io_exp_int_gpio(&self) -> I {
        self.io_exp_int_gpio
    }

    pub closed spec fn spec_power_button_gpio(&self) -> P {
        self.power_button_gpio
    }

    /// Whether `self` holds the same chip and pins as `other`.
    pub open spec fn same_hardware(&self, other: &Self) -> bool {
        &&& self.spec_io_expander() == other.spec_io_expander()
        &&& self.spec_io_exp_reset_gpio() == other.spec_io_exp_reset_gpio()
        &&& self.spec_io_exp_int_gpio() == other.spec_io_exp_int_gpio()
        &&& self.spec_power_button_gpio() == other.spec_power_button_gpio()
    }

    pub fn new(
        io_expander: Aw9523b<I2C>,
        io_exp_reset_gpio: R,
        io_exp_int_gpio: I,
        power_button_gpio: P,
    ) -> (ui: Self)
        ensures
            !ui.spec_is_initialized(),
            ui.spec_io_expander() == io_expander,
            ui.spec_io_exp_reset_gpio() == io_exp_reset_gpio,
            ui.spec_io_exp_int_gpio() == io_exp_int_gpio,
            ui.spec_power_button_gpio() == power_button_gpio,
    {
        Self {
            is_initialized: false,
            io_expander,
            io_exp_reset_gpio,
            io_exp_int_gpio,
            power_button_gpio,
        }
    }

    pub fn is_initialized(&self) -> (initialized: bool)
        ensures
            initialized == self.spec_is_initialized(),
    {
        self.is_initialized
    }

    /// The port expander, to carry out accesses on.
    pub fn io_expander(&mut self) -> (io_expander: &mut Aw9523b<I2C>)
        ensures
            *io_expander == old(self).spec_io_expander(),
            final(self).spec_io_expander() == *final(io_expander),
            final(self).spec_is_initialized() == old(self).spec_is_initialized(),
            final(self).spec_io_exp_reset_gpio() == old(self).spec_io_exp_reset_gpio(),
            final(self).spec_io_exp_int_gpio() == old(self).spec_io_exp_int_gpio(),
            final(self).spec_power_button_gpio() == old(self).spec_power_button_gpio(),
    {
        &mut self.io_expander
    }

    /// The reset line of the port expander, to put a level on.
    pub fn io_exp_reset_gpio(&mut self) -> (reset_gpio: &mut R)
        ensures
            *reset_gpio == old(self).spec_io_exp_reset_gpio(),
            final(self).spec_io_exp_reset_gpio() == *final(reset_gpio),
            final(self).spec_is_initialized() == old(self).spec_is_initialized(),
            final(self).spec_io_expander() == old(self).spec_io_expander(),
            final(self).spec_io_exp_int_gpio() == old(self).spec_io_exp_int_gpio(),
            final(self).spec_power_button_gpio() == old(self).spec_power_button_gpio(),
    {
        &mut self.io_exp_reset_gpio
    }

    /// The pin of the power button, to read.
    pub fn power_button_gpio(&mut self) -> (power_button_gpio: &mut P)
        ensures
            *power_button_gpio == old(self).spec_power_button_gpio(),
            final(self).spec_power_button_gpio() == *final(power_button_gpio),
            final(self).spec_is_initialized() == old(self).spec_is_initialized(),
            final(self).spec_io_expander() == old(self).spec_io_expander(),
            final(self).spec_io_exp_reset_gpio() == old(self).spec_io_exp_reset_gpio(),
            final(self).spec_io_exp_int_gpio() == old(self).spec_io_exp_int_gpio(),
    {
        &mut self.power_button_gpio
    }

    /// Gives the hardware up; the level returned is to be put on the reset
    /// line of the port expander, and the reset line comes back for that.
    pub fn reset(self) -> (released: (R, PinState))
        ensures
            released.0 == self.spec_io_exp_reset_gpio(),
            released.1 == PinState::Low,
    {
        (self.io_exp_reset_gpio, PinState::Low)
    }

    /// The steps that bring the user interface up.
    ///
    /// Taking the steps does not make the user interface usable yet:
    /// [`Self::finish_initialize`] does, when told that all went through.
    pub fn initialize(&self) -> (steps: Vec<Step>)
        ensures
            steps@ == spec_initialize_steps(),
    {
        let accesses = setup_accesses(&self.io_expander);
        let mut steps: Vec<Step> = Vec::new();
        steps.push(Step::ResetLine(PinState::High));
        steps.push(Step::Wait(Ms(RESET_RELEASE_DELAY_MS)));
        let ghost head = steps@;
        let mut i: usize = 0;
        while i < accesses.len()
            invariant
                i <= accesses.len(),
                accesses@ == spec_setup_accesses(),
                head == seq![Step::ResetLine(PinState::High), Step::Wait(Ms(RESET_RELEASE_DELAY_MS))],
                steps@ == head + accesses@.subrange(0, i as int).map_values(
                    |access: Access| Step::Chip(access),
                ),
            decreases accesses.len() - i,
        {
            steps.push(Step::Chip(accesses[i]));
            i += 1;
            assert(steps@ =~= head + accesses@.subrange(0, i as int).map_values(
                |access: Access| Step::Chip(access),
            ));
        }
        assert(accesses@.subrange(0, i as int) =~= accesses@);
        steps
    }

    /// Ends the bring-up with what became of its steps: the user interface is
    /// usable from now on if all of them went through; else it stays as it was
    /// and the failure is handed on.
    pub fn finish_initialize<E>(&mut self, outcome: Result<(), AwError<E>>) -> (result: Result<
        (),
        Error<E>,
    >)
        ensures
            final(self).same_hardware(old(self)),
            final(self).spec_is_initialized() == (old(self).spec_is_initialized()
                || outcome is Ok),
            match outcome {
                Ok(()) => result is Ok,
                Err(e) => result matches Err(Error::IoExpanderError(handed_on)) && handed_on == e,
            },
    {
        match outcome {
            Ok(()) => {
                self.is_initialized = true;
                Ok(())
            },
            Err(e) => Err(Error::from(e)),
        }
    }

    /// Refuses use before the user interface has been brought up.
    pub fn check_initialized<E>(&self) -> (usable: Result<(), Error<E>>)
        ensures
            self.spec_is_initialized() ==> usable is Ok,
            !self.spec_is_initialized() ==> usable matches Err(Error::UsedBeforeInitialization),
    {
        if !self.is_initialized {
            return Err(Error::UsedBeforeInitialization);
        }
        Ok(())
    }

    /// Whether the power button is pressed, from the level at its pin: it is
    /// when the pin is low.
    ///
    /// The pin is to be read only where [`Self::check_initialized`] has let
    /// it.
    pub fn is_power_pressed<E>(&self, power_button_is_low: bool) -> (pressed: Result<
        bool,
        Error<E>,
    >)
        ensures
            self.spec_is_initialized() ==> pressed == Ok::<bool, Error<E>>(power_button_is_low),
            !self.spec_is_initialized() ==> pressed matches Err(Error::UsedBeforeInitialization),
    {
        if !self.is_initialized {
            return Err(Error::UsedBeforeInitialization);
        }
        Ok(power_button_is_low)
    }

    /// The read that shows whether `button` is pressed, once the user
    /// interface is up; [`Button::is_pressed_in`] tells it from the value read.
    pub fn read_button<E>(&self, button: Button) -> (access: Result<Access, Error<E>>)
        ensures
            self.spec_is_initialized() ==> access == Ok::<Access, Error<E>>(
                Access::Read(button.spec_pin().0.spec_input_register()),
            ),
            !self.spec_is_initialized() ==> access matches Err(Error::UsedBeforeInitialization),
    {
        if !self.is_initialized {
            return Err(Error::UsedBeforeInitialization);
        }
        Ok(self.io_expander.read_pin(button.pin()))
    }

    pub fn is_bt_pressed<E>(&self) -> (access: Result<Access, Error<E>>)
        ensures
            self.spec_is_initialized() ==> access == Ok::<Access, Error<E>>(
                Access::Read(Button::Bt.spec_pin().0.spec_input_register()),
            ),
            !self.spec_is_initialized() ==> access matches Err(Error::UsedBeforeInitialization),
    {
        self.read_button(Button::Bt)
    }

    pub fn is_play_pause_pressed<E>(&self) -> (access: Result<Access, Error<E>>)
        ensures
            self.spec_is_initialized() ==> access == Ok::<Access, Error<E>>(
                Access::Read(Button::Play.spec_pin().0.spec_input_register()),
            ),
            !self.spec_is_initialized() ==> access matches Err(Error::UsedBeforeInitialization),
    {
        self.read_button(Button::Play)
    }

    pub fn is_plus_pressed<E>(&self) -> (access: Result<Access, Error<E>>)
        ensures
            self.spec_is_initialized() ==> access == Ok::<Access, Error<E>>(
                Access::Read(Button::Plus.spec_pin().0.spec_input_register()),
            ),
            !self.spec_is_initialized() ==> access matches Err(Error::UsedBeforeInitialization),
    {
        self.read_button(Button::Plus)
    }

    pub fn is_minus_pressed<E>(&self) -> (access: Result<Access, Error<E>>)
        ensures
            self.spec_is_initialized() ==> access == Ok::<Access, Error<E>>(
                Access::Read(Button::Minus.spec_pin().0.spec_input_register()),
            ),
            !self.spec_is_initialized() ==> access matches Err(Error::UsedBeforeInitialization),
    {
        self.read_button(Button::Minus)
    }

    /// The writes that set `led` to a colour, once the user interface is up.
    pub fn set_led<E>(&self, led: Led, r: u8, g: u8, b: u8) -> (accesses: Result<
        (Access, Access, Access),
        Error<E>,
    >)
        ensures
            self.spec_is_initialized() ==> accesses == Ok::<(Access, Access, Access), Error<E>>(
                led.spec_colour_accesses(r, g, b),
            ),
            !self.spec_is_initialized() ==> accesses matches Err(Error::UsedBeforeInitialization),
    {
        if !self.is_initialized {
            return Err(Error::UsedBeforeInitialization);
        }
        Ok(led.colour_accesses(&self.io_expander, r, g, b))
    }

    pub fn set_status_led<E>(&self, r: u8, g: u8, b: u8) -> (accesses: Result<
        (Access, Access, Access),
        Error<E>,
    >)
        ensures
            self.spec_is_initialized() ==> accesses == Ok::<(Access, Access, Access), Error<E>>(
                Led::Status.spec_colour_accesses(r, g, b),
            ),
            !self.spec_is_initialized() ==> accesses matches Err(Error::UsedBeforeInitialization),
    {
        self.set_led(Led::Status, r, g, b)
    }

    pub fn set_source_led<E>(&self, r: u8, g: u8, b: u8) -> (accesses: Result<
        (Access, Access, Access),
        Error<E>,
    >)
        ensures
            self.spec_is_initialized() ==> accesses == Ok::<(Access, Access, Access), Error<E>>(
                Led::Source.spec_colour_accesses(r, g, b),
            ),
            !self.spec_is_initialized() ==> accesses matches Err(Error::UsedBeforeInitialization),
    {
        self.set_led(Led::Source, r, g, b)
    }
}

} // verus!
