use tock::capsules::mcp23008::{McpOp, MCP23008, REG_GPIO, REG_GPINTEN, REG_GPPU, REG_INTCON, REG_INTF, REG_IODIR};
use tock::hil::gpio::{InputMode, InterruptMode};
use tock::hil::gpio_async::GPIOAsyncPort;
use tock::hil::i2c::{Error, I2cOp};

fn write(buf: Vec<u8>, len: u8) -> McpOp {
    McpOp::I2c(I2cOp::Write(buf, len))
}

fn read(buf: Vec<u8>, len: u8) -> McpOp {
    McpOp::I2c(I2cOp::Read(buf, len))
}

#[test]
fn set_pin_runs_read_modify_write() {
    let mut mcp = MCP23008::new(false, vec![0; 4]);
    mcp.set_client(7, 3);
    assert_eq!(mcp.set(2), 0);
    assert_eq!(mcp.take_ops(), vec![McpOp::I2c(I2cOp::Enable), write(vec![REG_GPIO, 2, 1, 0], 1)]);
    mcp.command_complete(vec![REG_GPIO, 2, 1, 0], Error::CommandComplete);
    assert_eq!(mcp.take_ops(), vec![read(vec![REG_GPIO, 2, 1, 0], 1)]);
    // the register read back holds pin 0 high
    mcp.command_complete(vec![0b0000_0001, 2, 1, 0], Error::CommandComplete);
    assert_eq!(mcp.take_ops(), vec![write(vec![REG_GPIO, 0b0000_0101, 1, 0], 2)]);
    mcp.command_complete(vec![REG_GPIO, 0b0000_0101, 1, 0], Error::CommandComplete);
    assert_eq!(mcp.take_ops(), vec![McpOp::ClientDone(7, 0), McpOp::I2c(I2cOp::Disable)]);
}

#[test]
fn clear_pin_clears_only_its_bit() {
    let mut mcp = MCP23008::new(false, vec![0; 4]);
    assert_eq!(mcp.clear(7), 0);
    mcp.take_ops();
    mcp.command_complete(vec![REG_GPIO, 7, 0, 0], Error::CommandComplete);
    mcp.take_ops();
    mcp.command_complete(vec![0xFF, 7, 0, 0], Error::CommandComplete);
    assert_eq!(mcp.take_ops(), vec![write(vec![REG_GPIO, 0x7F, 0, 0], 2)]);
    mcp.command_complete(vec![REG_GPIO, 0x7F, 0, 0], Error::CommandComplete);
    // no client: only the bus is turned off
    assert_eq!(mcp.take_ops(), vec![McpOp::I2c(I2cOp::Disable)]);
}

#[test]
fn toggle_flips_the_pin() {
    let mut mcp = MCP23008::new(false, vec![0; 4]);
    assert_eq!(mcp.toggle(4), 0);
    mcp.take_ops();
    mcp.command_complete(vec![REG_GPIO, 4, 0, 0], Error::CommandComplete);
    mcp.take_ops();
    mcp.command_complete(vec![0b0001_0001, 4, 0, 0], Error::CommandComplete);
    assert_eq!(mcp.take_ops(), vec![write(vec![REG_GPIO, 0b0000_0001, 0, 0], 2)]);
}

#[test]
fn enable_output_clears_direction_bit() {
    let mut mcp = MCP23008::new(false, vec![0; 4]);
    assert_eq!(mcp.enable_output(1), 0);
    assert_eq!(mcp.take_ops(), vec![McpOp::I2c(I2cOp::Enable), write(vec![REG_IODIR, 1, 0, 0], 1)]);
    mcp.command_complete(vec![REG_IODIR, 1, 0, 0], Error::CommandComplete);
    mcp.take_ops();
    mcp.command_complete(vec![0xFF, 1, 0, 0], Error::CommandComplete);
    assert_eq!(mcp.take_ops(), vec![write(vec![REG_IODIR, 0xFD, 0, 0], 2)]);
}

#[test]
fn enable_input_writes_direction_then_pull_up() {
    let mut mcp = MCP23008::new(false, vec![0; 4]);
    mcp.set_client(7, 0);
    assert_eq!(mcp.enable_input(5, InputMode::PullUp), 0);
    assert_eq!(mcp.take_ops(), vec![McpOp::I2c(I2cOp::Enable), write(vec![REG_IODIR, 5, 1, 0], 1)]);
    mcp.command_complete(vec![REG_IODIR, 5, 1, 0], Error::CommandComplete);
    assert_eq!(mcp.take_ops(), vec![read(vec![REG_IODIR, 5, 1, 0], 1)]);
    mcp.command_complete(vec![0, 5, 1, 0], Error::CommandComplete);
    assert_eq!(mcp.take_ops(), vec![write(vec![REG_IODIR, 0b0010_0000, 1, 0], 2)]);
    // the direction is set: the pull-up is written next, no callback yet
    mcp.command_complete(vec![REG_IODIR, 0b0010_0000, 1, 0], Error::CommandComplete);
    assert_eq!(mcp.take_ops(), vec![write(vec![REG_GPPU, 5, 1, 0], 1)]);
    mcp.command_complete(vec![REG_GPPU, 5, 1, 0], Error::CommandComplete);
    assert_eq!(mcp.take_ops(), vec![read(vec![REG_GPPU, 5, 1, 0], 1)]);
    mcp.command_complete(vec![0b0000_0001, 5, 1, 0], Error::CommandComplete);
    assert_eq!(mcp.take_ops(), vec![write(vec![REG_GPPU, 0b0010_0001, 1, 0], 2)]);
    mcp.command_complete(vec![REG_GPPU, 0b0010_0001, 1, 0], Error::CommandComplete);
    assert_eq!(mcp.take_ops(), vec![McpOp::ClientDone(7, 0), McpOp::I2c(I2cOp::Disable)]);
}

#[test]
fn enable_input_pull_none_clears_pull_up() {
    let mut mcp = MCP23008::new(false, vec![0; 4]);
    assert_eq!(mcp.enable_input(2, InputMode::PullNone), 0);
    for b in [vec![REG_IODIR, 2, 1, 0], vec![0, 2, 1, 0], vec![REG_IODIR, 4, 1, 0]] {
        mcp.command_complete(b, Error::CommandComplete);
    }
    let ops = mcp.take_ops();
    assert_eq!(ops[ops.len() - 1], write(vec![REG_GPPU, 2, 0, 0], 1));
}

#[test]
fn enable_input_pull_down_writes_direction_only() {
    let mut mcp = MCP23008::new(false, vec![0; 4]);
    mcp.set_client(7, 0);
    assert_eq!(mcp.enable_input(2, InputMode::PullDown), 0);
    for b in [vec![REG_IODIR, 2, 1, 0], vec![0, 2, 1, 0], vec![REG_IODIR, 4, 1, 0]] {
        mcp.command_complete(b, Error::CommandComplete);
    }
    let ops = mcp.take_ops();
    assert_eq!(ops[ops.len() - 2], McpOp::ClientDone(7, 0));
    assert_eq!(ops[ops.len() - 1], McpOp::I2c(I2cOp::Disable));
}

#[test]
fn configure_pullup_writes_gppu() {
    let mut mcp = MCP23008::new(false, vec![0; 4]);
    mcp.configure_pullup(6, true);
    assert_eq!(mcp.take_ops(), vec![McpOp::I2c(I2cOp::Enable), write(vec![REG_GPPU, 6, 1, 0], 1)]);
    mcp.command_complete(vec![REG_GPPU, 6, 1, 0], Error::CommandComplete);
    mcp.take_ops();
    mcp.command_complete(vec![0, 6, 1, 0], Error::CommandComplete);
    assert_eq!(mcp.take_ops(), vec![write(vec![REG_GPPU, 0b0100_0000, 1, 0], 2)]);
}

#[test]
fn pins_above_seven_are_refused() {
    let mut mcp = MCP23008::new(true, vec![0; 4]);
    assert_eq!(mcp.enable_output(8), -1);
    assert_eq!(mcp.enable_input(8, InputMode::PullNone), -1);
    assert_eq!(mcp.read(9), -1);
    assert_eq!(mcp.toggle(100), -1);
    assert_eq!(mcp.set(8), -1);
    assert_eq!(mcp.clear(8), -1);
    assert_eq!(mcp.enable_interrupt(8, InterruptMode::RisingEdge, 0), -1);
    assert_eq!(mcp.enable_interrupt(256, InterruptMode::RisingEdge, 0), -1);
    assert_eq!(mcp.disable_interrupt(8), -1);
    assert_eq!(mcp.disable(8), -1);
    assert_eq!(mcp.disable(256), -1);
    assert_eq!(mcp.take_ops(), vec![]);
}

#[test]
fn commands_while_busy_are_refused() {
    let mut mcp = MCP23008::new(true, vec![0; 4]);
    assert_eq!(mcp.set(0), 0);
    mcp.take_ops();
    // EBUSY
    assert_eq!(mcp.set(1), -2);
    assert_eq!(mcp.read(1), -2);
    assert_eq!(mcp.clear(1), -2);
    assert_eq!(mcp.toggle(1), -2);
    assert_eq!(mcp.disable(1), -2);
    assert_eq!(mcp.enable_output(1), -2);
    assert_eq!(mcp.enable_input(1, InputMode::PullUp), -2);
    assert_eq!(mcp.enable_interrupt(1, InterruptMode::RisingEdge, 0), -2);
    assert_eq!(mcp.disable_interrupt(1), -2);
    assert_eq!(mcp.take_ops(), vec![]);
    // a pin the extender does not have is refused first
    assert_eq!(mcp.set(8), -1);
}

#[test]
fn read_pin_reports_level() {
    let mut mcp = MCP23008::new(false, vec![0; 4]);
    mcp.set_client(7, 0);
    assert_eq!(mcp.read(3), 0);
    assert_eq!(mcp.take_ops(), vec![McpOp::I2c(I2cOp::Enable), write(vec![REG_GPIO, 3, 0, 0], 1)]);
    mcp.command_complete(vec![REG_GPIO, 3, 0, 0], Error::CommandComplete);
    assert_eq!(mcp.take_ops(), vec![read(vec![REG_GPIO, 3, 0, 0], 1)]);
    mcp.command_complete(vec![0b0000_1000, 3, 0, 0], Error::CommandComplete);
    assert_eq!(mcp.take_ops(), vec![McpOp::ClientDone(7, 1), McpOp::I2c(I2cOp::Disable)]);
    // the buffer is back: a new command starts
    assert_eq!(mcp.read(2), 0);
    assert_eq!(mcp.take_ops().len(), 2);
}

#[test]
fn interrupt_settings_round_trip() {
    let mut mcp = MCP23008::new(false, vec![0; 4]);
    mcp.save_pin_interrupt_state(3, true, InterruptMode::FallingEdge);
    mcp.save_pin_interrupt_state(6, true, InterruptMode::EitherEdge);
    assert!(mcp.check_pin_interrupt_enabled(3));
    assert!(mcp.check_pin_interrupt_enabled(6));
    assert!(!mcp.check_pin_interrupt_enabled(0));
    assert_eq!(mcp.get_pin_interrupt_direction(3), InterruptMode::FallingEdge);
    assert_eq!(mcp.get_pin_interrupt_direction(6), InterruptMode::EitherEdge);
    assert_eq!(mcp.get_pin_interrupt_enabled_state(), 0b0100_1000);
    mcp.remove_pin_interrupt_state(3);
    assert!(!mcp.check_pin_interrupt_enabled(3));
    assert!(mcp.check_pin_interrupt_enabled(6));
    assert_eq!(mcp.get_pin_interrupt_enabled_state(), 0b0100_0000);
    mcp.save_pin_interrupt_state(6, false, InterruptMode::RisingEdge);
    assert_eq!(mcp.get_pin_interrupt_enabled_state(), 0);
    assert_eq!(mcp.get_pin_interrupt_direction(6), InterruptMode::RisingEdge);
}

#[test]
fn enable_interrupt_needs_host_pin() {
    let mut mcp = MCP23008::new(false, vec![0; 4]);
    assert_eq!(mcp.enable_interrupt(2, InterruptMode::RisingEdge, 0), -1);
    assert_eq!(mcp.take_ops(), vec![]);
    assert!(!mcp.check_pin_interrupt_enabled(2));
    // without a host pin the answer is -1 even while busy
    assert_eq!(mcp.set(1), 0);
    mcp.take_ops();
    assert_eq!(mcp.enable_interrupt(2, InterruptMode::RisingEdge, 0), -1);
    assert_eq!(mcp.take_ops(), vec![]);
}

#[test]
fn notifications_go_to_last_client() {
    let mut mcp = MCP23008::new(false, vec![0; 4]);
    mcp.set_client(1, 0);
    mcp.set_client(2, 0);
    assert_eq!(mcp.read(0), 0);
    mcp.command_complete(vec![REG_GPIO, 0, 0, 0], Error::CommandComplete);
    mcp.command_complete(vec![0b0000_0001, 0, 0, 0], Error::CommandComplete);
    let ops = mcp.take_ops();
    assert_eq!(ops[ops.len() - 2], McpOp::ClientDone(2, 1));
}

#[test]
fn interrupt_fires_for_matching_edge_only() {
    let mut mcp = MCP23008::new(true, vec![0; 4]);
    mcp.set_client(7, 0x1205);
    assert_eq!(mcp.enable_interrupt(3, InterruptMode::FallingEdge, 0), 0);
    assert_eq!(
        mcp.take_ops(),
        vec![
            McpOp::InterruptPinMakeInput,
            McpOp::InterruptPinEnable(0, InterruptMode::RisingEdge),
            McpOp::I2c(I2cOp::Enable),
            write(vec![REG_INTCON, 0, 2, 0], 3),
        ]
    );
    mcp.command_complete(vec![REG_INTCON, 0, 2, 0], Error::CommandComplete);
    assert_eq!(mcp.take_ops(), vec![write(vec![REG_GPINTEN, 0b0000_1000, 2, 0], 2)]);
    mcp.command_complete(vec![REG_GPINTEN, 0b0000_1000, 2, 0], Error::CommandComplete);
    assert_eq!(mcp.take_ops(), vec![McpOp::ClientDone(7, 0), McpOp::I2c(I2cOp::Disable)]);

    // a rising edge on pin 3 is not reported
    mcp.fired(0);
    assert_eq!(mcp.take_ops(), vec![McpOp::I2c(I2cOp::Enable), write(vec![REG_INTF, 0b0000_1000, 2, 0], 1)]);
    mcp.command_complete(vec![REG_INTF, 0b0000_1000, 2, 0], Error::CommandComplete);
    assert_eq!(mcp.take_ops(), vec![read(vec![REG_INTF, 0b0000_1000, 2, 0], 3)]);
    mcp.command_complete(vec![0b0000_1000, 0, 0b0000_1000, 0], Error::CommandComplete);
    assert_eq!(mcp.take_ops(), vec![McpOp::I2c(I2cOp::Disable)]);

    // a falling edge is reported with port 5 and pin 3
    mcp.fired(0);
    mcp.command_complete(vec![REG_INTF, 0, 0, 0], Error::CommandComplete);
    mcp.command_complete(vec![0b0000_1000, 0, 0b0000_0000, 0], Error::CommandComplete);
    let ops = mcp.take_ops();
    assert_eq!(ops[ops.len() - 2], McpOp::ClientFired(7, 0x0305));
    assert_eq!(ops[ops.len() - 1], McpOp::I2c(I2cOp::Disable));
}

#[test]
fn only_lowest_firing_pin_is_reported() {
    let mut mcp = MCP23008::new(true, vec![0; 4]);
    mcp.set_client(7, 1);
    mcp.save_pin_interrupt_state(2, true, InterruptMode::EitherEdge);
    mcp.save_pin_interrupt_state(5, true, InterruptMode::EitherEdge);
    mcp.fired(0);
    mcp.command_complete(vec![REG_INTF, 0, 0, 0], Error::CommandComplete);
    mcp.command_complete(vec![0b0010_0100, 0, 0, 0], Error::CommandComplete);
    let ops = mcp.take_ops();
    assert_eq!(ops[ops.len() - 2], McpOp::ClientFired(7, 0x0201));
    // a flag on a pin whose interrupt is not enabled is ignored
    mcp.fired(0);
    mcp.command_complete(vec![REG_INTF, 0, 0, 0], Error::CommandComplete);
    mcp.command_complete(vec![0b0000_0001, 0, 0, 0], Error::CommandComplete);
    let ops = mcp.take_ops();
    assert_eq!(ops[ops.len() - 1], McpOp::I2c(I2cOp::Disable));
    assert!(!ops.contains(&McpOp::ClientFired(7, 0x0001)));
}

#[test]
fn disable_interrupt_writes_remaining_mask() {
    let mut mcp = MCP23008::new(true, vec![0; 4]);
    mcp.save_pin_interrupt_state(1, true, InterruptMode::RisingEdge);
    mcp.save_pin_interrupt_state(4, true, InterruptMode::RisingEdge);
    assert_eq!(mcp.disable_interrupt(1), 0);
    assert_eq!(mcp.take_ops(), vec![McpOp::I2c(I2cOp::Enable), write(vec![REG_GPINTEN, 0b0001_0000, 0, 0], 2)]);
    assert!(!mcp.check_pin_interrupt_enabled(1));
}

#[test]
fn completion_when_idle_does_nothing() {
    let mut mcp = MCP23008::new(false, vec![0; 4]);
    mcp.command_complete(vec![1, 2, 3, 4], Error::DataNak);
    assert_eq!(mcp.take_ops(), vec![]);
    assert_eq!(mcp.disable(0), 0);
    assert_eq!(mcp.take_ops(), vec![McpOp::I2c(I2cOp::Enable), write(vec![REG_IODIR, 0, 1, 0], 1)]);
}

#[test]
fn enable_host_interrupt_configures_pin() {
    let mut mcp = MCP23008::new(true, vec![0; 4]);
    assert_eq!(mcp.enable_host_interrupt(), 0);
    assert_eq!(
        mcp.take_ops(),
        vec![McpOp::InterruptPinMakeInput, McpOp::InterruptPinEnable(0, InterruptMode::RisingEdge)]
    );
    let mut none = MCP23008::new(false, vec![0; 4]);
    assert_eq!(none.enable_host_interrupt(), -1);
}
