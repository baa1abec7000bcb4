//! Pins that can be handed to a peripheral.

use core::marker::PhantomData;
use vstd::prelude::*;

verus! {

/// The output type of a pin that only ever pulls its line low.
pub struct OpenDrain;

/// The number of an alternate function, as a type.
pub struct Const<const A: u8>;

/// A pin that can serve as `LINE` of the peripheral `I2C`.
pub trait PinA<LINE, I2C> {
    /// The alternate function that connects the pin to that line.
    type A;
}

/// A pin that can be switched to the alternate function `A` with output type `OTYPE`, and back.
pub trait SetAlternate<OTYPE, A>: Sized {
    /// The pin once it is switched to the alternate function.
    spec fn alternate(self) -> Self;

    /// The pin once it is switched back to the mode that it was configured in.
    spec fn restored(self) -> Self;

    /// Switches the pin to the alternate function.
    fn set_alt_mode(&mut self)
        ensures
            *final(self) == old(self).alternate(),
    ;

    /// Switches the pin back to the mode that it was configured in.
    fn restore_mode(&mut self)
        ensures
            *final(self) == old(self).restored(),
    ;
}

/// The mode of a pin.
#[derive(Clone, Copy, PartialEq, Eq, Structural, Debug)]
pub enum PinMode {
    /// Read by software.
    Input,
    /// Driven by software, both high and low.
    Output,
    /// Connected to the analog parts of the chip.
    Analog,
    /// Driven by a peripheral, through the alternate function of this number, open drain.
    AlternateOpenDrain(u8),
}

/// A group of sixteen pins.
#[derive(Clone, Copy, PartialEq, Eq, Structural, Debug)]
pub enum Port {
    A,
    B,
    C,
    D,
    E,
    F,
    G,
    H,
}

/// The pin that serves as `LINE` of the peripheral `I2C`, through alternate function `A`, and as no
/// other line.
///
/// It is the record of a pin: where the pin is and which mode it is in.
#[derive(Debug)]
pub struct Pin<LINE, I2C, const A: u8> {
    /// The group that the pin belongs to.
    pub port: Port,
    /// The number of the pin in its group.
    pub number: u8,
    /// The mode that the pin was configured in.
    pub home: PinMode,
    /// The mode that the pin is in.
    pub mode: PinMode,
    /// The line that the pin serves as.
    pub role: PhantomData<(LINE, I2C)>,
}

impl<LINE, I2C, const A: u8> Pin<LINE, I2C, A> {
    /// The pin of this number in `port`, which is configured in `mode`.
    pub fn new(port: Port, number: u8, mode: PinMode) -> (pin: Self)
        ensures
            pin.port == port,
            pin.number == number,
            pin.home == mode,
            pin.mode == mode,
    {
        Pin { port, number, home: mode, mode, role: PhantomData }
    }
}

impl<LINE, I2C, const A: u8> PinA<LINE, I2C> for Pin<LINE, I2C, A> {
    type A = Const<A>;
}

impl<LINE, I2C, const A: u8> SetAlternate<OpenDrain, Const<A>> for Pin<LINE, I2C, A> {
    open spec fn alternate(self) -> Self {
        Pin { mode: PinMode::AlternateOpenDrain(A), ..self }
    }

    open spec fn restored(self) -> Self {
        Pin { mode: self.home, ..self }
    }

    fn set_alt_mode(&mut self) {
        self.mode = PinMode::AlternateOpenDrain(A);
    }

    fn restore_mode(&mut self) {
        self.mode = self.home;
    }
}

/// A pin in the mode that it was configured in is in that mode again after it was switched to its
/// alternate function and back.
pub proof fn law_restore_undoes_alternate<LINE, I2C, const A: u8>(pin: Pin<LINE, I2C, A>)
    requires
        pin.mode == pin.home,
    ensures
        pin.alternate().restored() == pin,
{
}

/// Switching a pin changes its mode and nothing else of it: to the alternate function of its type,
/// or back to the mode that it was configured in.
pub proof fn law_switching_keeps_the_pin<LINE, I2C, const A: u8>(pin: Pin<LINE, I2C, A>)
    ensures
        ({
            let driven = pin.alternate();
            &&& driven.mode == PinMode::AlternateOpenDrain(A)
            &&& driven.port == pin.port && driven.number == pin.number && driven.home == pin.home
        }),
        ({
            let back = pin.restored();
            &&& back.mode == pin.home
            &&& back.port == pin.port && back.number == pin.number && back.home == pin.home
        }),
{
}

/// A new pin is where it was said to be, and in the mode that it was configured in.
pub proof fn law_new_pin<LINE, I2C, const A: u8>(
    port: Port,
    number: u8,
    mode: PinMode,
    pin: Pin<LINE, I2C, A>,
)
    requires
        call_ensures(Pin::<LINE, I2C, A>::new, (port, number, mode), pin),
    ensures
        pin.port == port && pin.number == number,
        pin.mode == mode && pin.restored().mode == mode && pin.alternate().restored() == pin,
{
}

} // verus!
