//! The control panel's pins.
use vstd::prelude::*;
use crate::stm32::control::{BUTTON_COUNT, Button, GpioHardware};

verus! {

/// A digital input whose logic level can be read; board support code
/// adapts the HAL's input pins to it.
pub trait DigitalInput {
    type Error;

    fn is_high(&mut self) -> Result<bool, Self::Error>;

    fn is_low(&mut self) -> Result<bool, Self::Error>;
}

/// A pin of the control panel.
#[derive(PartialEq, Eq, Structural)]
pub enum PinId {
    /// The button pin at this scan position.
    Button(int),
    KnobA,
    KnobB,
}

/// One reading of a pin: which pin, whether it was asked for a low level
/// (`is_low`) or a high one (`is_high`), and its answer (`None` for an error).
pub struct PinRead {
    pub pin: PinId,
    pub asked_low: bool,
    pub answer: Option<bool>,
}

/// The answer of a pin read, `None` for an error.
pub open spec fn answer_of<E>(r: Result<bool, E>) -> Option<bool> {
    match r {
        Ok(level) => Some(level),
        Err(_) => None,
    }
}

/// GPIO pin collection for the control panel.
///
/// Pins connected to different ports can be converted to a type-erased
/// input-pin type before constructing this adapter. Button polarity is
/// configurable; encoder A/B levels are always returned as raw logic levels.
pub struct BoardGpio<P> {
    buttons: [P; BUTTON_COUNT],
    knob_a: P,
    knob_b: P,
    buttons_active_low: bool,
    reads: Ghost<Seq<PinRead>>,
}

impl<P> BoardGpio<P> {
    /// The button pins in scan order.
    pub closed spec fn button_pins(&self) -> Seq<P> {
        self.buttons@
    }

    pub closed spec fn knob_pins(&self) -> (P, P) {
        (self.knob_a, self.knob_b)
    }

    /// The pin readings made so far, oldest first.
    pub closed spec fn reads(&self) -> Seq<PinRead> {
        self.reads@
    }

    /// Whether a pressed button pulls its pin low.
    pub closed spec fn active_low(&self) -> bool {
        self.buttons_active_low
    }

    pub fn new(buttons: [P; BUTTON_COUNT], knob_a: P, knob_b: P, buttons_active_low: bool) -> (r:
        Self)
        ensures
            r.button_pins() == buttons@,
            r.knob_pins() == (knob_a, knob_b),
            r.active_low() == buttons_active_low,
            r.reads() == Seq::<PinRead>::empty(),
    {
        Self { buttons, knob_a, knob_b, buttons_active_low, reads: Ghost(Seq::empty()) }
    }

    /// The pin of `button`, to be changed in place.
    pub fn button_pin_mut(&mut self, button: Button) -> (r: &mut P)
        ensures
            *r == old(self).button_pins()[button.spec_index() as int],
            final(self).button_pins() == old(self).button_pins().update(
                button.spec_index() as int,
                *final(r),
            ),
            final(self).knob_pins() == old(self).knob_pins(),
            final(self).active_low() == old(self).active_low(),
            final(self).reads() == old(self).reads(),
    {
        let index = button.index();
        &mut self.buttons[index]
    }

    /// The encoder's A and B pins, to be changed in place.
    pub fn knob_pins_mut(&mut self) -> (r: (&mut P, &mut P))
        ensures
            *r.0 == old(self).knob_pins().0,
            *r.1 == old(self).knob_pins().1,
            final(self).knob_pins() == (*final(r.0), *final(r.1)),
            final(self).button_pins() == old(self).button_pins(),
            final(self).active_low() == old(self).active_low(),
            final(self).reads() == old(self).reads(),
    {
        (&mut self.knob_a, &mut self.knob_b)
    }

    pub fn into_pins(self) -> (r: ([P; BUTTON_COUNT], P, P))
        ensures
            r.0@ == self.button_pins(),
            (r.1, r.2) == self.knob_pins(),
    {
        (self.buttons, self.knob_a, self.knob_b)
    }
}

impl<P: DigitalInput> GpioHardware for BoardGpio<P> {
    type Error = P::Error;

    /// Reads the button's pin: low means pressed for active-low buttons,
    /// high means pressed otherwise. The result is the pin's answer.
    fn button_is_pressed(&mut self, button: Button) -> (r: Result<bool, Self::Error>)
        ensures
            final(self).reads() == old(self).reads().push(
                PinRead {
                    pin: PinId::Button(button.spec_index() as int),
                    asked_low: old(self).active_low(),
                    answer: answer_of(r),
                },
            ),
            final(self).active_low() == old(self).active_low(),
            final(self).knob_pins() == old(self).knob_pins(),
            final(self).button_pins().len() == old(self).button_pins().len(),
            forall|i: int|
                0 <= i < old(self).button_pins().len() && i != button.spec_index()
                    ==> #[trigger] final(self).button_pins()[i] == old(self).button_pins()[i],
    {
        let index = button.index();
        let active_low = self.buttons_active_low;
        let pin = &mut self.buttons[index];
        let r = if active_low {
            pin.is_low()
        } else {
            pin.is_high()
        };
        self.reads = Ghost(
            self.reads@.push(
                PinRead {
                    pin: PinId::Button(index as int),
                    asked_low: active_low,
                    answer: answer_of(r),
                },
            ),
        );
        r
    }

    /// Reads the encoder's A pin, then its B pin, both as raw high levels;
    /// a failed read of A leaves B unread.
    fn knob_state(&mut self) -> (r: Result<(bool, bool), Self::Error>)
        ensures
            final(self).active_low() == old(self).active_low(),
            final(self).button_pins() == old(self).button_pins(),
            match r {
                Ok((a, b)) => final(self).reads() == old(self).reads().push(
                    PinRead { pin: PinId::KnobA, asked_low: false, answer: Some(a) },
                ).push(PinRead { pin: PinId::KnobB, asked_low: false, answer: Some(b) }),
                Err(_) => final(self).reads() == old(self).reads().push(
                    PinRead { pin: PinId::KnobA, asked_low: false, answer: None },
                ) || exists|a: bool|
                    final(self).reads() == old(self).reads().push(
                        PinRead { pin: PinId::KnobA, asked_low: false, answer: Some(a) },
                    ).push(PinRead { pin: PinId::KnobB, asked_low: false, answer: None }),
            },
    {
        let read_a = self.knob_a.is_high();
        self.reads = Ghost(
            self.reads@.push(PinRead { pin: PinId::KnobA, asked_low: false, answer: answer_of(read_a) }),
        );
        let a = match read_a {
            Ok(level) => level,
            Err(error) => return Err(error),
        };
        let read_b = self.knob_b.is_high();
        self.reads = Ghost(
            self.reads@.push(PinRead { pin: PinId::KnobB, asked_low: false, answer: answer_of(read_b) }),
        );
        let b = match read_b {
            Ok(level) => level,
            Err(error) => return Err(error),
        };
        Ok((a, b))
    }
}

} // verus!
