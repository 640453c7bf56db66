use vstd::prelude::*;
use crate::hil::gpio::{InputMode, InterruptMode};

verus! {

/// Interface for banks of asynchronous GPIO pins. GPIO pins are asynchronous
/// when there is an asynchronous interface used to control them. The most
/// common example is when using a GPIO extender on an I2C or SPI bus. With
/// asynchronous GPIO functions, every config action results in an eventual
/// callback function that indicates that the configuration has finished
/// (unless the initial function call returns an error code, then no callback
/// will be generated).
///
/// Asynchronous GPIO pins are grouped into ports because it is assumed that
/// the remote entity that is controlling the pins can control multiple pins.
/// Typically, a port will be provided by a particular driver.
pub trait GPIOAsyncPort: Sized {
    /// What the port keeps true between calls.
    spec fn port_inv(&self) -> bool;

    /// Whether performing `op` on this port may leave it as `new` and
    /// answer `r`.
    spec fn port_step(&self, op: PortOp, new: Self, r: isize) -> bool;

    /// Try to disable a GPIO pin. This cannot be supported for all devices.
    fn disable(&mut self, pin: usize) -> (r: isize)
        requires
            old(self).port_inv(),
        ensures
            final(self).port_inv(),
            old(self).port_step(PortOp::Disable(pin), *final(self), r),
    ;

    /// Configure a pin as an ouput GPIO.
    fn enable_output(&mut self, pin: usize) -> (r: isize)
        requires
            old(self).port_inv(),
        ensures
            final(self).port_inv(),
            old(self).port_step(PortOp::EnableOutput(pin), *final(self), r),
    ;

    /// Configure a pin as an input GPIO. Not all InputMode settings may
    /// be supported by a given device.
    fn enable_input(&mut self, pin: usize, mode: InputMode) -> (r: isize)
        requires
            old(self).port_inv(),
        ensures
            final(self).port_inv(),
            old(self).port_step(PortOp::EnableInput(pin, mode), *final(self), r),
    ;

    /// Get the state (0 or 1) of an input pin. The value will be returned
    /// via a callback.
    fn read(&mut self, pin: usize) -> (r: isize)
        requires
            old(self).port_inv(),
        ensures
            final(self).port_inv(),
            old(self).port_step(PortOp::Read(pin), *final(self), r),
    ;

    /// Toggle an output GPIO pin.
    fn toggle(&mut self, pin: usize) -> (r: isize)
        requires
            old(self).port_inv(),
        ensures
            final(self).port_inv(),
            old(self).port_step(PortOp::Toggle(pin), *final(self), r),
    ;

    /// Assert a GPIO pin high.
    fn set(&mut self, pin: usize) -> (r: isize)
        requires
            old(self).port_inv(),
        ensures
            final(self).port_inv(),
            old(self).port_step(PortOp::SetPin(pin), *final(self), r),
    ;

    /// Clear a GPIO pin low.
    fn clear(&mut self, pin: usize) -> (r: isize)
        requires
            old(self).port_inv(),
        ensures
            final(self).port_inv(),
            old(self).port_step(PortOp::ClearPin(pin), *final(self), r),
    ;

    /// Setup an interrupt on a GPIO input pin. The identifier should be
    /// the port number and will be returned when the interrupt callback
    /// fires.
    fn enable_interrupt(&mut self, pin: usize, mode: InterruptMode, identifier: usize) -> (r: isize)
        requires
            old(self).port_inv(),
        ensures
            final(self).port_inv(),
            old(self).port_step(PortOp::EnableInterrupt(pin, mode, identifier), *final(self), r),
    ;

    /// Disable an interrupt on a GPIO input pin.
    fn disable_interrupt(&mut self, pin: usize) -> (r: isize)
        requires
            old(self).port_inv(),
        ensures
            final(self).port_inv(),
            old(self).port_step(PortOp::DisableInterrupt(pin), *final(self), r),
    ;
}

/// An operation on a pin of a port.
#[derive(Clone, Copy, PartialEq, Eq, Structural, Debug)]
pub enum PortOp {
    Disable(usize),
    EnableOutput(usize),
    EnableInput(usize, InputMode),
    Read(usize),
    Toggle(usize),
    SetPin(usize),
    ClearPin(usize),
    EnableInterrupt(usize, InterruptMode, usize),
    DisableInterrupt(usize),
}

/// The gpio_async Client interface is used to both receive callbacks
/// when a configuration command finishes and to handle interrupt events
/// from pins with interrupts enabled.
pub trait Client {
    /// Called when an interrupt occurs. The identifier is split between
    /// the port and pin numbers that triggered the interrupt. The lowest
    /// eight bits are the port number, and the next lowest eight bits
    /// are the pin in that port that triggered the interrupt.
    fn fired(&mut self, identifier: usize);

    /// Done is called when a configuration command finishes.
    fn done(&mut self, value: usize);
}

} // verus!
