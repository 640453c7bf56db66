use tock::callback::{AppId, Callback, FunctionCall, Upcall};
use tock::capsules::gpio_async::{decode_command, negate, GPIOAsync, PortCommand};
use tock::capsules::mcp23008::MCP23008;
use tock::driver::Driver;
use tock::hil::gpio::InterruptMode;
use tock::hil::gpio_async::Client;

fn driver() -> GPIOAsync<MCP23008> {
    GPIOAsync::new(vec![MCP23008::new(true, vec![0; 4]), MCP23008::new(false, vec![0; 4])])
}

#[test]
fn decoding() {
    assert_eq!(decode_command(0, 0xFFFF_FFFF, 0), PortCommand::Count);
    assert_eq!(decode_command(1, 0x0301, 2), PortCommand::EnableOutput { port: 1, pin: 3 });
    assert_eq!(decode_command(1, 0x0302, 2), PortCommand::Invalid);
    assert_eq!(decode_command(5, 0x0002_0400, 1), PortCommand::EnableInput { port: 0, pin: 4, config: 2 });
    assert_eq!(decode_command(7, 0x0103_0500, 1), PortCommand::EnableInterrupt { port: 0, pin: 5, config: 3 });
    assert_eq!(decode_command(9, 0x0700, 1), PortCommand::Disable { port: 0, pin: 7 });
    assert_eq!(decode_command(10, 0, 1), PortCommand::Invalid);
}

#[test]
fn negation() {
    assert_eq!(negate(-1), 1);
    assert_eq!(negate(0), 0);
    assert_eq!(negate(6), -6);
    assert_eq!(negate(isize::MIN), isize::MAX);
}

#[test]
fn port_count_and_invalid_ports() {
    let mut g = driver();
    let app = AppId::new(0);
    assert_eq!(g.command(0, 0, app), 2);
    assert_eq!(g.command(2, 0x0002, app), -1);
    assert_eq!(g.command(11, 0x0000, app), -1);
}

#[test]
fn commands_answer_negated_port_results() {
    let mut g = driver();
    let app = AppId::new(0);
    // set pin 3 of port 0
    assert_eq!(g.command(2, 0x0300, app), 0);
    // a pin the extender does not have: the port answers -1
    assert_eq!(g.command(1, 0x0901, app), 1);
    assert_eq!(g.command(3, 0x0201, app), 0);
}

#[test]
fn invalid_configuration() {
    let mut g = driver();
    let app = AppId::new(0);
    assert_eq!(g.command(5, 0x0003_0100, app), 6);
    assert_eq!(g.command(7, 0x0005_0100, app), 6);
    assert_eq!(g.configure_input_pin(0, 1, 3), -6);
    assert_eq!(g.configure_interrupt(0, 1, 4), -6);
}

#[test]
fn interrupt_configuration_reaches_port() {
    let mut g = driver();
    let app = AppId::new(0);
    // port 0 has a host interrupt pin
    assert_eq!(g.command(7, 0x0001_0200, app), 0);
    // port 1 has none: the port answers -1
    assert_eq!(g.command(7, 0x0001_0201, app), 1);
    // port 0 is busy with the first request: EBUSY
    assert_eq!(g.configure_interrupt(0, 2, 2), -2);
    assert_eq!(g.command(2, 0x0100, app), 2);
    let _ = InterruptMode::FallingEdge;
}

#[test]
fn callbacks_are_scheduled() {
    let mut g = driver();
    g.fired(0x0102);
    assert_eq!(g.take_upcalls(), vec![]);
    assert_eq!(g.subscribe(0, Callback::new(AppId::new(2), 55, 0x800, None)), 0);
    assert_eq!(g.subscribe(1, Callback::new(AppId::new(2), 55, 0x800, None)), -1);
    g.fired(0x0102);
    g.done(1);
    assert_eq!(
        g.take_upcalls(),
        vec![
            Upcall::Process { app_id: AppId::new(2), call: FunctionCall { r0: 1, r1: 0x0102, r2: 0, r3: 55, pc: 0x800 } },
            Upcall::Process { app_id: AppId::new(2), call: FunctionCall { r0: 0, r1: 1, r2: 0, r3: 55, pc: 0x800 } },
        ]
    );
}
