//! Provide userspace applications with a driver interface to asynchronous
//! GPIO pins. These are pins that exist on something like a GPIO extender or
//! a radio that has controllable GPIOs.
use vstd::prelude::*;
use crate::callback::{AppId, Callback, CallbackView, Upcall, scheduled_upcall};
use crate::driver::Driver;
use crate::hil::gpio::{InputMode, InterruptMode};
use crate::hil::gpio_async::{Client, GPIOAsyncPort, PortOp};
use crate::returncode::{ReturnCode, return_code_value};

verus! {

/// What a command asks of the ports.
#[derive(Clone, Copy, PartialEq, Eq, Structural, Debug)]
pub enum PortCommand {
    /// How many ports there are.
    Count,
    /// A command that is not known, or a port that does not exist.
    Invalid,
    EnableOutput { port: usize, pin: usize },
    SetPin { port: usize, pin: usize },
    ClearPin { port: usize, pin: usize },
    TogglePin { port: usize, pin: usize },
    EnableInput { port: usize, pin: usize, config: usize },
    Read { port: usize, pin: usize },
    EnableInterrupt { port: usize, pin: usize, config: usize },
    DisableInterrupt { port: usize, pin: usize },
    Disable { port: usize, pin: usize },
}

/// The port number held in the low byte of a command's data.
pub open spec fn data_port(data: usize) -> usize {
    data & 0xFFusize
}

/// The pin number held in the second byte of a command's data.
pub open spec fn data_pin(data: usize) -> usize {
    (data >> 8usize) & 0xFFusize
}

/// The configuration held in the low byte of the upper half of a command's
/// data.
pub open spec fn data_config(data: usize) -> usize {
    ((data >> 16usize) & 0xFFFFusize) & 0xFFusize
}

/// What command `command_num` with `data` asks of `num_ports` ports.  On any
/// command other than 0 the port must exist.
pub open spec fn decoded(command_num: usize, data: usize, num_ports: nat) -> PortCommand {
    let port = data_port(data);
    let pin = data_pin(data);
    let config = data_config(data);
    if command_num == 0 {
        PortCommand::Count
    } else if port >= num_ports {
        PortCommand::Invalid
    } else if command_num == 1 {
        PortCommand::EnableOutput { port, pin }
    } else if command_num == 2 {
        PortCommand::SetPin { port, pin }
    } else if command_num == 3 {
        PortCommand::ClearPin { port, pin }
    } else if command_num == 4 {
        PortCommand::TogglePin { port, pin }
    } else if command_num == 5 {
        PortCommand::EnableInput { port, pin, config }
    } else if command_num == 6 {
        PortCommand::Read { port, pin }
    } else if command_num == 7 {
        PortCommand::EnableInterrupt { port, pin, config }
    } else if command_num == 8 {
        PortCommand::DisableInterrupt { port, pin }
    } else if command_num == 9 {
        PortCommand::Disable { port, pin }
    } else {
        PortCommand::Invalid
    }
}

/// Decodes command `command_num` with `data` for `num_ports` ports.
pub fn decode_command(command_num: usize, data: usize, num_ports: usize) -> (r: PortCommand)
    ensures
        r == decoded(command_num, data, num_ports as nat),
{
    let port = data & 0xFF;
    let pin = (data >> 8) & 0xFF;
    let other = (data >> 16) & 0xFFFF;
    let config = other & 0xFF;
    if command_num == 0 {
        return PortCommand::Count;
    }
    // On any command other than 0, we check for ports length.
    if port >= num_ports {
        return PortCommand::Invalid;
    }
    match command_num {
        1 => PortCommand::EnableOutput { port: port, pin: pin },
        2 => PortCommand::SetPin { port: port, pin: pin },
        3 => PortCommand::ClearPin { port: port, pin: pin },
        4 => PortCommand::TogglePin { port: port, pin: pin },
        5 => PortCommand::EnableInput { port: port, pin: pin, config: config },
        6 => PortCommand::Read { port: port, pin: pin },
        7 => PortCommand::EnableInterrupt { port: port, pin: pin, config: config },
        8 => PortCommand::DisableInterrupt { port: port, pin: pin },
        9 => PortCommand::Disable { port: port, pin: pin },
        _ => PortCommand::Invalid,
    }
}

/// The input mode of a configuration number (0 pull-up, 1 pull-down, 2 no
/// pull).
pub open spec fn input_mode_of(config: usize) -> InputMode {
    if config == 0 {
        InputMode::PullUp
    } else if config == 1 {
        InputMode::PullDown
    } else {
        InputMode::PullNone
    }
}

/// The interrupt mode of a configuration number (0 rising edge, 1 falling
/// edge, 2 either edge).
pub open spec fn interrupt_mode_of_config(config: usize) -> InterruptMode {
    if config == 0 {
        InterruptMode::RisingEdge
    } else if config == 1 {
        InterruptMode::FallingEdge
    } else {
        InterruptMode::EitherEdge
    }
}

/// The port a command addresses and the operation it asks of it, if any
/// (an invalid configuration asks nothing).
pub open spec fn port_call(c: PortCommand) -> Option<(usize, PortOp)> {
    match c {
        PortCommand::Count => None,
        PortCommand::Invalid => None,
        PortCommand::EnableOutput { port, pin } => Some((port, PortOp::EnableOutput(pin))),
        PortCommand::SetPin { port, pin } => Some((port, PortOp::SetPin(pin))),
        PortCommand::ClearPin { port, pin } => Some((port, PortOp::ClearPin(pin))),
        PortCommand::TogglePin { port, pin } => Some((port, PortOp::Toggle(pin))),
        PortCommand::EnableInput { port, pin, config } => if config > 2 {
            None
        } else {
            Some((port, PortOp::EnableInput(pin, input_mode_of(config))))
        },
        PortCommand::Read { port, pin } => Some((port, PortOp::Read(pin))),
        PortCommand::EnableInterrupt { port, pin, config } => if config > 2 {
            None
        } else {
            Some((port, PortOp::EnableInterrupt(pin, interrupt_mode_of_config(config), port)))
        },
        PortCommand::DisableInterrupt { port, pin } => Some((port, PortOp::DisableInterrupt(pin))),
        PortCommand::Disable { port, pin } => Some((port, PortOp::Disable(pin))),
    }
}

/// What each command asks of the ports.  The data carries the port in its
/// low byte, the pin in its second byte and the configuration in its third.
/// Command 0 counts the ports; any other command on a port that does not
/// exist, or with a number above 9, is refused.  On an existing port,
/// command 1 makes the pin an output, 2 sets it, 3 clears it, 4 toggles it,
/// 5 makes it an input (configuration 0 pull-up, 1 pull-down, 2 no pull),
/// 6 reads it, 7 enables its interrupt (configuration 0 rising edge,
/// 1 falling edge, 2 either edge; the port number identifies it),
/// 8 disables its interrupt and 9 disables it; a configuration above 2
/// asks nothing of the port.
pub proof fn lemma_command_meaning(command_num: usize, data: usize, num_ports: nat)
    ensures
        ({
            let port: usize = data % 256;
            let pin: usize = (data / 256) % 256;
            let config: usize = (data / 65536) % 256;
            let c = decoded(command_num, data, num_ports);
            let call = port_call(c);
            &&& command_num == 0 ==> c == PortCommand::Count
            &&& command_num != 0 && port >= num_ports ==> c == PortCommand::Invalid
            &&& command_num > 9 ==> c == PortCommand::Invalid
            &&& command_num != 0 && port < num_ports ==> {
                &&& command_num == 1 ==> call == Some((port, PortOp::EnableOutput(pin)))
                &&& command_num == 2 ==> call == Some((port, PortOp::SetPin(pin)))
                &&& command_num == 3 ==> call == Some((port, PortOp::ClearPin(pin)))
                &&& command_num == 4 ==> call == Some((port, PortOp::Toggle(pin)))
                &&& command_num == 5 && config == 0 ==> call == Some(
                    (port, PortOp::EnableInput(pin, InputMode::PullUp)),
                )
                &&& command_num == 5 && config == 1 ==> call == Some(
                    (port, PortOp::EnableInput(pin, InputMode::PullDown)),
                )
                &&& command_num == 5 && config == 2 ==> call == Some(
                    (port, PortOp::EnableInput(pin, InputMode::PullNone)),
                )
                &&& command_num == 6 ==> call == Some((port, PortOp::Read(pin)))
                &&& command_num == 7 && config == 0 ==> call == Some(
                    (port, PortOp::EnableInterrupt(pin, InterruptMode::RisingEdge, port)),
                )
                &&& command_num == 7 && config == 1 ==> call == Some(
                    (port, PortOp::EnableInterrupt(pin, InterruptMode::FallingEdge, port)),
                )
                &&& command_num == 7 && config == 2 ==> call == Some(
                    (port, PortOp::EnableInterrupt(pin, InterruptMode::EitherEdge, port)),
                )
                &&& (command_num == 5 || command_num == 7) && config > 2 ==> call is None
                &&& command_num == 8 ==> call == Some((port, PortOp::DisableInterrupt(pin)))
                &&& command_num == 9 ==> call == Some((port, PortOp::Disable(pin)))
            }
        }),
{
    assert(data & 0xFFusize == data % 256) by (bit_vector);
    assert((data >> 8usize) & 0xFFusize == (data / 256) % 256) by (bit_vector);
    assert(((data >> 16usize) & 0xFFFFusize) & 0xFFusize == (data / 65536) % 256) by (bit_vector);
}

/// The value returned for the result `x` of a port: its negation (the
/// most negative value, which has none, gives the most positive).
pub open spec fn negated(x: isize) -> isize {
    if x == isize::MIN {
        isize::MAX
    } else {
        (-x) as isize
    }
}

pub fn negate(x: isize) -> (r: isize)
    ensures
        r == negated(x),
{
    if x == isize::MIN {
        isize::MAX
    } else {
        -x
    }
}

/// The abstract state of the driver.
pub ghost struct GPIOAsyncView<Port> {
    pub ports: Seq<Port>,
    pub callback: Option<CallbackView>,
    /// Upcalls not yet taken by the kernel, oldest first.
    pub upcalls: Seq<Upcall>,
}

/// The driver state after a call to the port `port` that left it as
/// `new_port`.
pub open spec fn ports_only_changed<Port>(old: GPIOAsyncView<Port>, new: GPIOAsyncView<Port>, port: usize) -> bool {
    &&& new.ports.len() == old.ports.len()
    &&& forall|i: int| 0 <= i < old.ports.len() && i != port ==> new.ports[i] == old.ports[i]
    &&& new.callback == old.callback
    &&& new.upcalls == old.upcalls
}

/// The asynchronous GPIO driver over a set of ports.
pub struct GPIOAsync<Port: GPIOAsyncPort> {
    ports: Vec<Port>,
    callback: Option<Callback>,
    upcalls: Vec<Upcall>,
}

impl<Port: GPIOAsyncPort> View for GPIOAsync<Port> {
    type V = GPIOAsyncView<Port>;

    closed spec fn view(&self) -> GPIOAsyncView<Port> {
        GPIOAsyncView {
            ports: self.ports@,
            callback: match self.callback {
                Some(cb) => Some(cb@),
                None => None,
            },
            upcalls: self.upcalls@,
        }
    }
}

/// The ports are all consistent and can be counted in an `isize`.
pub open spec fn ports_wf<Port: GPIOAsyncPort>(ports: Seq<Port>) -> bool {
    &&& ports.len() <= isize::MAX
    &&& forall|i: int| 0 <= i < ports.len() ==> #[trigger] ports[i].port_inv()
}

impl<Port: GPIOAsyncPort> GPIOAsync<Port> {
    pub fn new(ports: Vec<Port>) -> (r: GPIOAsync<Port>)
        ensures
            r@ == (GPIOAsyncView { ports: ports@, callback: None, upcalls: Seq::<Upcall>::empty() }),
    {
        GPIOAsync { ports: ports, callback: None, upcalls: Vec::new() }
    }

    /// Hands the kernel the upcalls scheduled so far, oldest first.
    pub fn take_upcalls(&mut self) -> (r: Vec<Upcall>)
        ensures
            r@ == old(self)@.upcalls,
            final(self)@ == (GPIOAsyncView { upcalls: Seq::<Upcall>::empty(), ..old(self)@ }),
    {
        let mut r = Vec::new();
        std::mem::swap(&mut r, &mut self.upcalls);
        r
    }

    /// Makes `pin` of `port` an input with the pull of `config` (0 pull-up, 1
    /// pull-down, 2 none); any other configuration is invalid.
    pub fn configure_input_pin(&mut self, port: usize, pin: usize, config: usize) -> (r: isize)
        requires
            port < old(self)@.ports.len(),
            ports_wf(old(self)@.ports),
        ensures
            config > 2 ==> r == return_code_value(ReturnCode::EINVAL) && final(self)@ == old(self)@,
            config <= 2 ==> ports_only_changed(old(self)@, final(self)@, port) && old(self)@.ports[port as int].port_step(
                PortOp::EnableInput(pin, input_mode_of(config)),
                final(self)@.ports[port as int],
                r,
            ),
            ports_wf(final(self)@.ports),
    {
        if config > 2 {
            return ReturnCode::EINVAL.value();
        }
        let mode = match config {
            0 => InputMode::PullUp,
            1 => InputMode::PullDown,
            _ => InputMode::PullNone,
        };
        assert(self.ports@[port as int].port_inv());
        let r = self.ports[port].enable_input(pin, mode);
        assert(forall|i: int| 0 <= i < self.ports@.len() && i != port ==> self.ports@[i] == old(self).ports@[i]);
        r
    }

    /// Enables an interrupt on `pin` of `port` on the edges of `config` (0
    /// rising, 1 falling, 2 either), identified by the port number; any
    /// other configuration is invalid.
    pub fn configure_interrupt(&mut self, port: usize, pin: usize, config: usize) -> (r: isize)
        requires
            port < old(self)@.ports.len(),
            ports_wf(old(self)@.ports),
        ensures
            config > 2 ==> r == return_code_value(ReturnCode::EINVAL) && final(self)@ == old(self)@,
            config <= 2 ==> ports_only_changed(old(self)@, final(self)@, port) && old(self)@.ports[port as int].port_step(
                PortOp::EnableInterrupt(pin, interrupt_mode_of_config(config), port),
                final(self)@.ports[port as int],
                r,
            ),
            ports_wf(final(self)@.ports),
    {
        if config > 2 {
            return ReturnCode::EINVAL.value();
        }
        let mode = match config {
            0 => InterruptMode::RisingEdge,
            1 => InterruptMode::FallingEdge,
            _ => InterruptMode::EitherEdge,
        };
        assert(self.ports@[port as int].port_inv());
        let r = self.ports[port].enable_interrupt(pin, mode, port);
        r
    }
}

impl<Port: GPIOAsyncPort> Client for GPIOAsync<Port> {
    /// An interrupt is reported to the process with callback arguments
    /// (1, identifier, 0).
    fn fired(&mut self, port_pin_num: usize)
        ensures
            final(self)@ == (GPIOAsyncView {
                upcalls: match old(self)@.callback {
                    Some(cb) => old(self)@.upcalls.push(scheduled_upcall(cb, 1, port_pin_num, 0)),
                    None => old(self)@.upcalls,
                },
                ..old(self)@
            }),
    {
        match self.callback {
            Some(cb) => {
                let u = cb.schedule(1, port_pin_num, 0);
                self.upcalls.push(u);
            },
            None => {},
        }
    }

    /// The end of a command is reported to the process with callback
    /// arguments (0, value, 0).
    fn done(&mut self, value: usize)
        ensures
            final(self)@ == (GPIOAsyncView {
                upcalls: match old(self)@.callback {
                    Some(cb) => old(self)@.upcalls.push(scheduled_upcall(cb, 0, value, 0)),
                    None => old(self)@.upcalls,
                },
                ..old(self)@
            }),
    {
        match self.callback {
            Some(cb) => {
                let u = cb.schedule(0, value, 0);
                self.upcalls.push(u);
            },
            None => {},
        }
    }
}

impl<Port: GPIOAsyncPort> Driver for GPIOAsync<Port> {
    open spec fn driver_inv(&self) -> bool {
        ports_wf(self@.ports)
    }

    /// Subscription 0 sets the callback.
    fn subscribe(&mut self, subscribe_num: usize, callback: Callback) -> (r: isize)
        ensures
            subscribe_num == 0 ==> r == 0 && final(self)@ == (GPIOAsyncView { callback: Some(callback@), ..old(self)@ }),
            subscribe_num != 0 ==> r == -1 && final(self)@ == old(self)@,
    {
        match subscribe_num {
            0 => {
                self.callback = Some(callback);
                0
            },
            // default
            _ => -1,
        }
    }

    /// Commands, with the port in the low byte of `data`, the pin in the
    /// next and a configuration above: 0 count the ports, 1 enable output,
    /// 2 set, 3 clear, 4 toggle, 5 enable and configure input, 6 read, 7
    /// enable interrupt (identified by the port number), 8 disable
    /// interrupt, 9 disable.  A command for a port performs that operation
    /// on that port alone and answers the negation of what the port
    /// answered; an unknown command or port answers -1, an invalid
    /// configuration 6 (the negated EINVAL).
    fn command(&mut self, command_num: usize, data: usize, _app: AppId) -> (r: isize)
        ensures
            decoded(command_num, data, old(self)@.ports.len()) == PortCommand::Count ==> r == old(self)@.ports.len() && final(self)@ == old(self)@,
            decoded(command_num, data, old(self)@.ports.len()) == PortCommand::Invalid ==> r == -1 && final(self)@ == old(self)@,
            (decoded(command_num, data, old(self)@.ports.len()) matches PortCommand::EnableInput { config, .. } && config > 2)
                ==> r == -return_code_value(ReturnCode::EINVAL) && final(self)@ == old(self)@,
            (decoded(command_num, data, old(self)@.ports.len()) matches PortCommand::EnableInterrupt { config, .. } && config > 2)
                ==> r == -return_code_value(ReturnCode::EINVAL) && final(self)@ == old(self)@,
            port_call(decoded(command_num, data, old(self)@.ports.len())) matches Some((port, op))
                ==> ports_only_changed(old(self)@, final(self)@, port) && exists|x: isize|
                #[trigger] old(self)@.ports[port as int].port_step(op, final(self)@.ports[port as int], x) && r
                == negated(x),
    {
        let c = decode_command(command_num, data, self.ports.len());
        match c {
            // How many ports
            PortCommand::Count => self.ports.len() as isize,
            PortCommand::Invalid => -1,
            // enable output
            PortCommand::EnableOutput { port, pin } => {
                assert(self.ports@[port as int].port_inv());
                negate(self.ports[port].enable_output(pin))
            },
            // set pin
            PortCommand::SetPin { port, pin } => {
                assert(self.ports@[port as int].port_inv());
                negate(self.ports[port].set(pin))
            },
            // clear pin
            PortCommand::ClearPin { port, pin } => {
                assert(self.ports@[port as int].port_inv());
                negate(self.ports[port].clear(pin))
            },
            // toggle pin
            PortCommand::TogglePin { port, pin } => {
                assert(self.ports@[port as int].port_inv());
                negate(self.ports[port].toggle(pin))
            },
            // enable and configure input
            PortCommand::EnableInput { port, pin, config } => negate(self.configure_input_pin(port, pin, config)),
            // read input
            PortCommand::Read { port, pin } => {
                assert(self.ports@[port as int].port_inv());
                negate(self.ports[port].read(pin))
            },
            // enable interrupt on pin
            PortCommand::EnableInterrupt { port, pin, config } => negate(self.configure_interrupt(port, pin, config)),
            // disable interrupt on pin
            PortCommand::DisableInterrupt { port, pin } => {
                assert(self.ports@[port as int].port_inv());
                negate(self.ports[port].disable_interrupt(pin))
            },
            // disable pin
            PortCommand::Disable { port, pin } => {
                assert(self.ports@[port as int].port_inv());
                negate(self.ports[port].disable(pin))
            },
        }
    }
}

} // verus!
