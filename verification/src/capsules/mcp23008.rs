//! Driver for the Microchip MCP23008 I2C GPIO Extender
//!
//! http://www.microchip.com/wwwproducts/en/MCP23008
use vstd::prelude::*;
use crate::hil::gpio::{InputMode, InterruptMode, interrupt_mode_number, interrupt_mode_of};
use crate::hil::gpio_async::{GPIOAsyncPort, PortOp};
use crate::hil::i2c::{Error, I2cAction, I2cOp};
use crate::returncode::{ReturnCode, return_code_value};

verus! {

/// Size of the buffer that the platform gives the driver for I2C messages.
pub const BUFFER_LEN: usize = 4;

/// Register addresses of the MCP23008.
pub const REG_IODIR: u8 = 0x00;
pub const REG_IPOL: u8 = 0x01;
pub const REG_GPINTEN: u8 = 0x02;
pub const REG_DEFVAL: u8 = 0x03;
pub const REG_INTCON: u8 = 0x04;
pub const REG_IOCON: u8 = 0x05;
pub const REG_GPPU: u8 = 0x06;
pub const REG_INTF: u8 = 0x07;
pub const REG_INTCAP: u8 = 0x08;
pub const REG_GPIO: u8 = 0x09;
pub const REG_OLAT: u8 = 0x0a;

/// States of the I2C protocol with the MCP23008.
#[derive(Clone, Copy, PartialEq, Eq, Structural, Debug)]
pub enum State {
    Idle,
    SelectIoDir,
    ReadIoDir,
    SelectGpPu,
    ReadGpPu,
    SelectGpio,
    ReadGpio,
    SelectGpioToggle,
    ReadGpioToggle,
    SelectGpioRead,
    ReadGpioRead,
    EnableInterruptSettings,
    ReadInterruptSetup,
    ReadInterruptValues,
    /// Disable I2C and release buffer
    Done,
}

/// Direction of a pin, as written into the IODIR register.
#[derive(Clone, Copy, PartialEq, Eq, Structural, Debug)]
pub enum Direction {
    Input,
    Output,
}

pub open spec fn direction_value(d: Direction) -> u8 {
    match d {
        Direction::Input => 1,
        Direction::Output => 0,
    }
}

impl Direction {
    pub fn value(self) -> (r: u8)
        ensures
            r == direction_value(self),
    {
        match self {
            Direction::Input => 1,
            Direction::Output => 0,
        }
    }
}

/// Level of an output pin, as written into the GPIO register.
#[derive(Clone, Copy, PartialEq, Eq, Structural, Debug)]
pub enum PinState {
    High,
    Low,
}

pub open spec fn pin_state_value(p: PinState) -> u8 {
    match p {
        PinState::High => 1,
        PinState::Low => 0,
    }
}

impl PinState {
    pub fn value(self) -> (r: u8)
        ensures
            r == pin_state_value(self),
    {
        match self {
            PinState::High => 1,
            PinState::Low => 0,
        }
    }
}

/// An effect of the driver that the platform performs.
#[derive(Debug, PartialEq, Eq)]
pub enum McpOp {
    /// An operation on the I2C device of the extender.
    I2c(I2cOp),
    /// Make the host's interrupt pin an input.
    InterruptPinMakeInput,
    /// Enable an interrupt on the host's interrupt pin, with this client
    /// data and mode.
    InterruptPinEnable(usize, InterruptMode),
    /// Tell the client (by its handle) that a command finished, with a
    /// value.
    ClientDone(usize, usize),
    /// Tell the client (by its handle) that an interrupt fired, with port
    /// and pin.
    ClientFired(usize, usize),
}

/// The abstract form of an effect.
pub ghost enum McpAction {
    I2c(I2cAction),
    InterruptPinMakeInput,
    InterruptPinEnable(usize, InterruptMode),
    ClientDone(usize, usize),
    ClientFired(usize, usize),
}

impl View for McpOp {
    type V = McpAction;

    open spec fn view(&self) -> McpAction {
        match self {
            McpOp::I2c(op) => McpAction::I2c(op@),
            McpOp::InterruptPinMakeInput => McpAction::InterruptPinMakeInput,
            McpOp::InterruptPinEnable(d, m) => McpAction::InterruptPinEnable(*d, *m),
            McpOp::ClientDone(c, v) => McpAction::ClientDone(*c, *v),
            McpOp::ClientFired(c, v) => McpAction::ClientFired(*c, *v),
        }
    }
}

pub open spec fn mcp_ops_view(s: Seq<McpOp>) -> Seq<McpAction> {
    s.map_values(|o: McpOp| o@)
}

/// The abstract state of the driver.
pub ghost struct Mcp23008View {
    pub state: State,
    /// The message buffer, while it is not handed to the bus.
    pub buffer: Option<Seq<u8>>,
    pub has_interrupt_pin: bool,
    /// Four bits per pin: bit 0 whether its interrupt is enabled, bits 1-2
    /// the interrupt mode.
    pub interrupt_settings: u32,
    pub identifier: usize,
    /// The handle of the client that notifications go to, once one is set.
    pub client: Option<usize>,
    /// The pull-up setting (pin, enabled) to write once the direction update
    /// in flight is done.
    pub pending_pullup: Option<(u8, bool)>,
    /// Effects not yet taken by the platform, oldest first.
    pub ops: Seq<McpAction>,
}

impl Mcp23008View {
    /// The driver holds its buffer exactly when it is idle, so at most one
    /// transfer is outstanding; the buffer is large enough for every
    /// message; a pull-up waits only behind a direction update.
    pub open spec fn wf(self) -> bool {
        &&& self.buffer matches Some(b) ==> b.len() >= 3
        &&& (self.buffer is Some) <==> (self.state == State::Idle)
        &&& self.pending_pullup is Some ==> (self.state == State::SelectIoDir || self.state == State::ReadIoDir
            || self.state == State::Done)
    }
}

// ---------------------------------------------------------------------
// Interrupt settings: four bits per pin.
// ---------------------------------------------------------------------
/// The settings with the four bits of `pin` cleared.
pub open spec fn settings_cleared(s: u32, pin: u8) -> u32 {
    s & !(0x0Fu32 << ((4 * pin) as u8))
}

/// The four bits that describe an interrupt setting.
pub open spec fn settings_nibble(enabled: bool, mode: InterruptMode) -> u32 {
    (((if enabled { 1u8 } else { 0u8 }) | (interrupt_mode_number(mode) << 1u8)) & 0x0Fu8) as u32
}

/// The settings with those of `pin` replaced.
pub open spec fn settings_saved(s: u32, pin: u8, enabled: bool, mode: InterruptMode) -> u32 {
    settings_cleared(s, pin) | (settings_nibble(enabled, mode) << ((4 * pin) as u8))
}

/// Whether the settings enable the interrupt of `pin`.
pub open spec fn interrupt_enabled(s: u32, pin: u8) -> bool {
    (s >> ((4 * pin) as u8)) & 0x01u32 == 0x01u32
}

/// The interrupt mode that the settings give `pin`.
pub open spec fn interrupt_direction(s: u32, pin: u8) -> InterruptMode {
    interrupt_mode_of((s >> ((4 * pin + 1) as u8)) & 0x03u32)
}

/// The four bits of `pin` in the settings.
pub open spec fn pin_settings(s: u32, pin: u8) -> u32 {
    (s >> ((4 * pin) as u8)) & 0x0Fu32
}

/// Bit mask of the pins below `n` whose interrupt is enabled.
pub open spec fn enabled_mask_below(s: u32, n: nat) -> u8
    decreases n,
{
    if n == 0 {
        0
    } else {
        enabled_mask_below(s, (n - 1) as nat) | (if interrupt_enabled(s, (n - 1) as u8) {
            1u8 << ((n - 1) as u8)
        } else {
            0u8
        })
    }
}

/// Bit mask of the pins whose interrupt is enabled.
pub open spec fn enabled_mask(s: u32) -> u8 {
    enabled_mask_below(s, 8)
}

/// Whether `pin` raised an interrupt that the client asked for: its
/// interrupt is enabled, its flag is set, and the level it moved to matches
/// the mode.
pub open spec fn pin_fires(s: u32, flags: u8, levels: u8, pin: u8) -> bool {
    &&& interrupt_enabled(s, pin)
    &&& (flags >> pin) & 1u8 == 1u8
    &&& match interrupt_direction(s, pin) {
        InterruptMode::EitherEdge => true,
        InterruptMode::RisingEdge => (levels >> pin) & 1u8 == 1u8,
        InterruptMode::FallingEdge => (levels >> pin) & 1u8 == 0u8,
    }
}

/// The lowest pin from `i` on that fires.
pub open spec fn first_fired(s: u32, flags: u8, levels: u8, i: nat) -> Option<u8>
    decreases 8 - i,
{
    if i >= 8 {
        None
    } else if pin_fires(s, flags, levels, i as u8) {
        Some(i as u8)
    } else {
        first_fired(s, flags, levels, i + 1)
    }
}

/// The identifier passed to the client for an interrupt of `pin`: the port
/// number in the low byte, the pin in the next.
pub open spec fn fired_identifier(identifier: usize, pin: u8) -> usize {
    (identifier & 0x00FFusize) | ((pin as usize) << 8usize)
}

// ---------------------------------------------------------------------
// Transitions of the driver.
// ---------------------------------------------------------------------
/// The driver with `ops` appended to its log.
pub open spec fn logged(v: Mcp23008View, ops: Seq<McpAction>) -> Mcp23008View {
    Mcp23008View { ops: v.ops + ops, ..v }
}

/// The driver after it turned the bus on and handed it `data` to write
/// `len` bytes of, entering `next`.
pub open spec fn started(v: Mcp23008View, data: Seq<u8>, len: u8, next: State) -> Mcp23008View {
    Mcp23008View {
        state: next,
        buffer: None,
        ops: v.ops + seq![
            McpAction::I2c(I2cAction::Enable),
            McpAction::I2c(I2cAction::Write(data, len)),
        ],
        ..v
    }
}

/// Writing `value` for `pin` into register `reg`, to be merged with the
/// register's current value once it is read.
pub open spec fn register_request(b: Seq<u8>, reg: u8, pin: u8, value: u8) -> Seq<u8> {
    b.update(0, reg).update(1, pin).update(2, value)
}

pub open spec fn after_set_direction(v: Mcp23008View, pin: u8, d: Direction) -> Mcp23008View {
    match v.buffer {
        Some(b) => started(v, register_request(b, REG_IODIR, pin, direction_value(d)), 1, State::SelectIoDir),
        None => v,
    }
}

pub open spec fn after_configure_pullup(v: Mcp23008View, pin: u8, enabled: bool) -> Mcp23008View {
    match v.buffer {
        Some(b) => started(
            v,
            register_request(b, REG_GPPU, pin, if enabled { 1u8 } else { 0u8 }),
            1,
            State::SelectGpPu,
        ),
        None => v,
    }
}

pub open spec fn after_set_pin(v: Mcp23008View, pin: u8, p: PinState) -> Mcp23008View {
    match v.buffer {
        Some(b) => started(v, register_request(b, REG_GPIO, pin, pin_state_value(p)), 1, State::SelectGpio),
        None => v,
    }
}

pub open spec fn after_toggle_pin(v: Mcp23008View, pin: u8) -> Mcp23008View {
    match v.buffer {
        Some(b) => started(v, b.update(0, REG_GPIO).update(1, pin), 1, State::SelectGpioToggle),
        None => v,
    }
}

pub open spec fn after_read_pin(v: Mcp23008View, pin: u8) -> Mcp23008View {
    match v.buffer {
        Some(b) => started(v, b.update(0, REG_GPIO).update(1, pin), 1, State::SelectGpioRead),
        None => v,
    }
}

pub open spec fn after_enable_interrupt_pin(v: Mcp23008View, pin: u8, mode: InterruptMode) -> Mcp23008View {
    match v.buffer {
        Some(b) => started(
            Mcp23008View { interrupt_settings: settings_saved(v.interrupt_settings, pin, true, mode), ..v },
            b.update(0, REG_INTCON).update(1, 0u8).update(2, 0b00000010u8),
            3,
            State::EnableInterruptSettings,
        ),
        None => v,
    }
}

pub open spec fn after_disable_interrupt_pin(v: Mcp23008View, pin: u8) -> Mcp23008View {
    match v.buffer {
        Some(b) => {
            let s = settings_cleared(v.interrupt_settings, pin);
            started(
                Mcp23008View { interrupt_settings: s, ..v },
                b.update(0, REG_GPINTEN).update(1, enabled_mask(s)),
                2,
                State::Done,
            )
        },
        None => v,
    }
}

pub open spec fn after_fired(v: Mcp23008View) -> Mcp23008View {
    match v.buffer {
        Some(b) => started(v, b.update(0, REG_INTF), 1, State::ReadInterruptSetup),
        None => v,
    }
}

/// The driver after it handed the bus `b` to read `len` bytes into.
pub open spec fn reading(v: Mcp23008View, b: Seq<u8>, len: u8, next: State) -> Mcp23008View {
    Mcp23008View { state: next, ops: v.ops.push(McpAction::I2c(I2cAction::Read(b, len))), ..v }
}

/// The driver after it handed the bus `b` to write `len` bytes of.
pub open spec fn writing(v: Mcp23008View, b: Seq<u8>, len: u8, next: State) -> Mcp23008View {
    Mcp23008View { state: next, ops: v.ops.push(McpAction::I2c(I2cAction::Write(b, len))), ..v }
}

/// What the client is told at the end of a command.
#[derive(Clone, Copy, PartialEq, Eq, Structural, Debug)]
pub enum Notice {
    /// The command finished, with a value.
    Done(usize),
    /// An interrupt fired, with port and pin.
    Fired(usize),
}

/// Telling client `c` of `n`.
pub open spec fn notice_action(c: usize, n: Notice) -> McpAction {
    match n {
        Notice::Done(x) => McpAction::ClientDone(c, x),
        Notice::Fired(x) => McpAction::ClientFired(c, x),
    }
}

/// The driver after it finished a command: the client (if any) gets
/// `notice`, the buffer comes back and the bus is turned off.
pub open spec fn finished(v: Mcp23008View, b: Seq<u8>, notice: Option<Notice>) -> Mcp23008View {
    let told = match notice {
        Some(n) => match v.client {
            Some(c) => seq![notice_action(c, n)],
            None => Seq::empty(),
        },
        None => Seq::empty(),
    };
    Mcp23008View {
        state: State::Idle,
        buffer: Some(b),
        ops: v.ops + told + seq![McpAction::I2c(I2cAction::Disable)],
        ..v
    }
}

/// The new value of a register byte `old` with the bit of `pin` set
/// (`set`) or cleared.
pub open spec fn with_pin_bit(old: u8, pin: u8, set: bool) -> u8 {
    if set {
        old | (1u8 << pin)
    } else {
        old & !(1u8 << pin)
    }
}

/// Writing back the register `reg` read into `b[0]`, with the bit of the
/// pin `b[1]` set or cleared.
pub open spec fn register_update(b: Seq<u8>, reg: u8, set: bool) -> Seq<u8> {
    b.update(1, with_pin_bit(b[0], b[1], set)).update(0, reg)
}

/// The driver after the bus completed the transfer of the current state and
/// handed back `b`.
pub open spec fn after_complete(v: Mcp23008View, b: Seq<u8>) -> Mcp23008View {
    match v.state {
        State::SelectIoDir => reading(v, b, 1, State::ReadIoDir),
        State::ReadIoDir => writing(
            v,
            register_update(b, REG_IODIR, b[2] == direction_value(Direction::Input)),
            2,
            State::Done,
        ),
        State::SelectGpPu => reading(v, b, 1, State::ReadGpPu),
        State::ReadGpPu => writing(v, register_update(b, REG_GPPU, b[2] == 1u8), 2, State::Done),
        State::SelectGpio => reading(v, b, 1, State::ReadGpio),
        State::ReadGpio => writing(
            v,
            register_update(b, REG_GPIO, b[2] == pin_state_value(PinState::High)),
            2,
            State::Done,
        ),
        State::SelectGpioToggle => reading(v, b, 1, State::ReadGpioToggle),
        State::ReadGpioToggle => writing(
            v,
            b.update(1, b[0] ^ (1u8 << b[1])).update(0, REG_GPIO),
            2,
            State::Done,
        ),
        State::SelectGpioRead => reading(v, b, 1, State::ReadGpioRead),
        State::ReadGpioRead => finished(v, b, Some(Notice::Done(((b[0] >> b[1]) & 0x01u8) as usize))),
        State::EnableInterruptSettings => writing(
            v,
            b.update(0, REG_GPINTEN).update(1, enabled_mask(v.interrupt_settings)),
            2,
            State::Done,
        ),
        State::ReadInterruptSetup => reading(v, b, 3, State::ReadInterruptValues),
        State::ReadInterruptValues => finished(
            v,
            b,
            match first_fired(v.interrupt_settings, b[0], b[2], 0) {
                Some(p) => Some(Notice::Fired(fired_identifier(v.identifier, p))),
                None => None,
            },
        ),
        State::Done => match v.pending_pullup {
            Some((pin, enabled)) => writing(
                Mcp23008View { pending_pullup: None, ..v },
                register_request(b, REG_GPPU, pin, if enabled { 1u8 } else { 0u8 }),
                1,
                State::SelectGpPu,
            ),
            None => finished(v, b, Some(Notice::Done(0))),
        },
        State::Idle => v,
    }
}

/// The states in which a completion reads the pin number from byte 1 of the
/// buffer and shifts by it.
pub open spec fn uses_pin_byte(s: State) -> bool {
    s == State::ReadIoDir || s == State::ReadGpPu || s == State::ReadGpio || s
        == State::ReadGpioToggle || s == State::ReadGpioRead
}

/// What a completion needs of the buffer it is handed.
pub open spec fn completion_ok(s: State, b: Seq<u8>) -> bool {
    &&& b.len() >= 3
    &&& uses_pin_byte(s) ==> b[1] < 8
}

// ---------------------------------------------------------------------
// Bit lemmas.
// ---------------------------------------------------------------------
proof fn lemma_or_bit(r: u8, i: u8, j: u8)
    requires
        i < 8,
        j < 8,
    ensures
        ((r | (1u8 << i)) >> j) & 1u8 == (if i == j { 1u8 } else { (r >> j) & 1u8 }),
{
    assert(((r | (1u8 << i)) >> j) & 1u8 == (if i == j { 1u8 } else { (r >> j) & 1u8 }))
        by (bit_vector)
        requires
            i < 8,
            j < 8,
    ;
}

/// Bit `j` of the mask of the pins below `n`.
proof fn lemma_enabled_mask_below_bit(s: u32, n: nat, j: u8)
    requires
        n <= 8,
        j < 8,
    ensures
        ((enabled_mask_below(s, n) >> j) & 1u8 == 1u8) == (j < n && interrupt_enabled(s, j)),
    decreases n,
{
    if n == 0 {
        assert((0u8 >> j) & 1u8 == 0u8) by (bit_vector);
    } else {
        let m = (n - 1) as u8;
        lemma_enabled_mask_below_bit(s, (n - 1) as nat, j);
        let prev = enabled_mask_below(s, (n - 1) as nat);
        if interrupt_enabled(s, m) {
            lemma_or_bit(prev, m, j);
        } else {
            assert(prev | 0u8 == prev) by (bit_vector);
        }
    }
}

/// Bit `pin` of the enabled mask tells whether the interrupt of `pin` is
/// enabled.
pub proof fn lemma_enabled_mask_bit(s: u32, pin: u8)
    requires
        pin < 8,
    ensures
        ((enabled_mask(s) >> pin) & 1u8 == 1u8) == interrupt_enabled(s, pin),
{
    lemma_enabled_mask_below_bit(s, 8, pin);
}

/// Saving the settings of a pin and reading them back gives what was saved,
/// and leaves the settings of every other pin as they were.
pub proof fn lemma_settings_saved(s: u32, pin: u8, enabled: bool, mode: InterruptMode, other: u8)
    requires
        pin < 8,
        other < 8,
        other != pin,
    ensures
        interrupt_enabled(settings_saved(s, pin, enabled, mode), pin) == enabled,
        interrupt_direction(settings_saved(s, pin, enabled, mode), pin) == mode,
        pin_settings(settings_saved(s, pin, enabled, mode), other) == pin_settings(s, other),
{
    let e: u8 = if enabled { 1u8 } else { 0u8 };
    let m: u8 = interrupt_mode_number(mode);
    let sh: u8 = (4 * pin) as u8;
    let sh1: u8 = (4 * pin + 1) as u8;
    let osh: u8 = (4 * other) as u8;
    let t = settings_saved(s, pin, enabled, mode);
    assert(t == (s & !(0x0Fu32 << sh)) | ((((e | (m << 1u8)) & 0x0Fu8) as u32) << sh));
    assert((t >> sh) & 0x01u32 == (e as u32)) by (bit_vector)
        requires
            t == (s & !(0x0Fu32 << sh)) | ((((e | (m << 1u8)) & 0x0Fu8) as u32) << sh),
            sh < 32,
            e < 2,
            m < 3,
    ;
    assert((t >> sh1) & 0x03u32 == (m as u32)) by (bit_vector)
        requires
            t == (s & !(0x0Fu32 << sh)) | ((((e | (m << 1u8)) & 0x0Fu8) as u32) << sh),
            sh <= 28,
            sh1 == sh + 1,
            e < 2,
            m < 3,
    ;
    assert((t >> osh) & 0x0Fu32 == (s >> osh) & 0x0Fu32) by (bit_vector)
        requires
            t == (s & !(0x0Fu32 << sh)) | ((((e | (m << 1u8)) & 0x0Fu8) as u32) << sh),
            sh < 32,
            osh < 32,
            sh % 4 == 0,
            osh % 4 == 0,
            sh != osh,
    ;
}

/// Clearing the settings of a pin disables its interrupt and leaves the
/// settings of every other pin as they were.
pub proof fn lemma_settings_cleared(s: u32, pin: u8, other: u8)
    requires
        pin < 8,
        other < 8,
        other != pin,
    ensures
        !interrupt_enabled(settings_cleared(s, pin), pin),
        pin_settings(settings_cleared(s, pin), other) == pin_settings(s, other),
{
    let sh: u8 = (4 * pin) as u8;
    let osh: u8 = (4 * other) as u8;
    let t = settings_cleared(s, pin);
    assert((t >> sh) & 0x01u32 == 0u32) by (bit_vector)
        requires
            t == s & !(0x0Fu32 << sh),
            sh < 32,
    ;
    assert((t >> osh) & 0x0Fu32 == (s >> osh) & 0x0Fu32) by (bit_vector)
        requires
            t == s & !(0x0Fu32 << sh),
            sh < 32,
            osh < 32,
            sh % 4 == 0,
            osh % 4 == 0,
            sh != osh,
    ;
}

// ---------------------------------------------------------------------
// Laws of the driver.
// ---------------------------------------------------------------------
/// Setting or clearing the bit of a pin in a register value changes that
/// bit to what was asked and no other bit.
pub proof fn lemma_with_pin_bit(old: u8, pin: u8, set: bool, other: u8)
    requires
        pin < 8,
        other < 8,
    ensures
        ((with_pin_bit(old, pin, set) >> pin) & 1u8 == 1u8) == set,
        other != pin ==> (with_pin_bit(old, pin, set) >> other) & 1u8 == (old >> other) & 1u8,
{
    if set {
        assert(((old | (1u8 << pin)) >> pin) & 1u8 == 1u8) by (bit_vector)
            requires
                pin < 8,
        ;
        assert(other != pin ==> ((old | (1u8 << pin)) >> other) & 1u8 == (old >> other) & 1u8)
            by (bit_vector)
            requires
                pin < 8,
                other < 8,
        ;
    } else {
        assert(((old & !(1u8 << pin)) >> pin) & 1u8 == 0u8) by (bit_vector)
            requires
                pin < 8,
        ;
        assert(other != pin ==> ((old & !(1u8 << pin)) >> other) & 1u8 == (old >> other) & 1u8)
            by (bit_vector)
            requires
                pin < 8,
                other < 8,
        ;
    }
}

/// Toggling a pin flips its bit of the register value and no other bit.
pub proof fn lemma_toggle_bit(old: u8, pin: u8, other: u8)
    requires
        pin < 8,
        other < 8,
    ensures
        ((old ^ (1u8 << pin)) >> pin) & 1u8 != (old >> pin) & 1u8,
        other != pin ==> ((old ^ (1u8 << pin)) >> other) & 1u8 == (old >> other) & 1u8,
{
    assert(((old ^ (1u8 << pin)) >> pin) & 1u8 != (old >> pin) & 1u8) by (bit_vector)
        requires
            pin < 8,
    ;
    assert(other != pin ==> ((old ^ (1u8 << pin)) >> other) & 1u8 == (old >> other) & 1u8)
        by (bit_vector)
        requires
            pin < 8,
            other < 8,
    ;
}

/// The identifier handed to the client for an interrupt carries the port
/// number (the low byte of the driver's identifier) in its low byte and
/// the pin in the next byte.
pub proof fn lemma_fired_identifier(identifier: usize, pin: u8)
    requires
        pin < 8,
    ensures
        fired_identifier(identifier, pin) & 0xFFusize == identifier & 0xFFusize,
        (fired_identifier(identifier, pin) >> 8usize) & 0xFFusize == pin as usize,
{
    let p = pin as usize;
    assert(((identifier & 0x00FFusize) | (p << 8usize)) & 0xFFusize == identifier & 0xFFusize)
        by (bit_vector)
        requires
            p < 8,
    ;
    assert((((identifier & 0x00FFusize) | (p << 8usize)) >> 8usize) & 0xFFusize == p)
        by (bit_vector)
        requires
            p < 8,
    ;
}

/// The states that a command to update a pin's bit of a register enters.
pub open spec fn starts_register_update(s: State) -> bool {
    s == State::SelectIoDir || s == State::SelectGpPu || s == State::SelectGpio || s
        == State::SelectGpioToggle
}

/// A command that updates a pin's bit of a register finishes after three
/// completions of the bus (select the register, read it, write it back):
/// the driver is idle again, holds the buffer the bus handed back last, and
/// its last effects are a `done(0)` to the client (if it has one) and
/// turning the bus off.
pub proof fn lemma_register_update_finishes(v: Mcp23008View, b1: Seq<u8>, b2: Seq<u8>, b3: Seq<u8>)
    requires
        starts_register_update(v.state),
        v.pending_pullup is None,
        completion_ok(v.state, b1),
        completion_ok(after_complete(v, b1).state, b2),
        completion_ok(after_complete(after_complete(v, b1), b2).state, b3),
    ensures
        ({
            let v3 = after_complete(after_complete(after_complete(v, b1), b2), b3);
            let n = v.ops.len();
            &&& v3.state == State::Idle
            &&& v3.buffer == Some(b3)
            &&& v3.interrupt_settings == v.interrupt_settings
            &&& v3.ops.subrange(0, n as int) == v.ops
            &&& v3.ops[n as int] == McpAction::I2c(I2cAction::Read(b1, 1))
            &&& v3.ops.subrange(n + 2int, v3.ops.len() as int) == (if v.client is Some {
                seq![McpAction::ClientDone(v.client->0, 0), McpAction::I2c(I2cAction::Disable)]
            } else {
                seq![McpAction::I2c(I2cAction::Disable)]
            })
        }),
{
    let v1 = after_complete(v, b1);
    let v2 = after_complete(v1, b2);
    let v3 = after_complete(v2, b3);
    let n = v.ops.len();
    assert(v1.ops == v.ops.push(McpAction::I2c(I2cAction::Read(b1, 1))));
    assert(v2.ops.len() == n + 2);
    assert(v2.state == State::Done);
    assert(v3.ops.subrange(0, n as int) =~= v.ops);
    assert(v3.ops.subrange(n + 2int, v3.ops.len() as int) =~= (if v.client is Some {
        seq![McpAction::ClientDone(v.client->0, 0), McpAction::I2c(I2cAction::Disable)]
    } else {
        seq![McpAction::I2c(I2cAction::Disable)]
    }));
}

/// A read of a pin finishes after two completions of the bus (select the
/// GPIO register, read it): the driver is idle again, holds the buffer, and
/// its last effects are a `done` to the client (if it has one) with the
/// level of the pin in the register value read, and turning the bus off.
pub proof fn lemma_read_finishes(v: Mcp23008View, b1: Seq<u8>, b2: Seq<u8>)
    requires
        v.state == State::SelectGpioRead,
        completion_ok(v.state, b1),
        completion_ok(after_complete(v, b1).state, b2),
    ensures
        ({
            let v2 = after_complete(after_complete(v, b1), b2);
            let n = v.ops.len();
            &&& v2.state == State::Idle
            &&& v2.buffer == Some(b2)
            &&& v2.ops.subrange(0, n as int) == v.ops
            &&& v2.ops[n as int] == McpAction::I2c(I2cAction::Read(b1, 1))
            &&& v2.ops.subrange(n + 1int, v2.ops.len() as int) == (if v.client is Some {
                seq![
                    McpAction::ClientDone(v.client->0, ((b2[0] >> b2[1]) & 0x01u8) as usize),
                    McpAction::I2c(I2cAction::Disable),
                ]
            } else {
                seq![McpAction::I2c(I2cAction::Disable)]
            })
        }),
{
    let v1 = after_complete(v, b1);
    let v2 = after_complete(v1, b2);
    let n = v.ops.len();
    assert(v2.ops.subrange(0, n as int) =~= v.ops);
    assert(v2.ops.subrange(n + 1int, v2.ops.len() as int) =~= (if v.client is Some {
        seq![
            McpAction::ClientDone(v.client->0, ((b2[0] >> b2[1]) & 0x01u8) as usize),
            McpAction::I2c(I2cAction::Disable),
        ]
    } else {
        seq![McpAction::I2c(I2cAction::Disable)]
    }));
}

/// Configuring an interrupt finishes after two completions of the bus
/// (write the interrupt control register, then the enabled mask) and
/// disabling one after a single completion: the driver is idle again,
/// holds the buffer, and its last effects are a `done(0)` to the client (if
/// it has one) and turning the bus off.  The mask written is that of the
/// settings.
pub proof fn lemma_interrupt_configuration_finishes(v: Mcp23008View, b1: Seq<u8>, b2: Seq<u8>)
    requires
        v.state == State::EnableInterruptSettings,
        v.pending_pullup is None,
        completion_ok(v.state, b1),
        completion_ok(State::Done, b2),
    ensures
        ({
            let v1 = after_complete(v, b1);
            let v2 = after_complete(v1, b2);
            let n = v.ops.len();
            &&& v1.ops == v.ops.push(
                McpAction::I2c(I2cAction::Write(b1.update(0, REG_GPINTEN).update(1, enabled_mask(v.interrupt_settings)), 2)),
            )
            &&& v2.state == State::Idle
            &&& v2.buffer == Some(b2)
            &&& v2.interrupt_settings == v.interrupt_settings
            &&& v2.ops.subrange(0, n + 1int) == v1.ops
            &&& v2.ops.subrange(n + 1int, v2.ops.len() as int) == (if v.client is Some {
                seq![McpAction::ClientDone(v.client->0, 0), McpAction::I2c(I2cAction::Disable)]
            } else {
                seq![McpAction::I2c(I2cAction::Disable)]
            })
        }),
{
    let v1 = after_complete(v, b1);
    let v2 = after_complete(v1, b2);
    let n = v.ops.len();
    assert(v2.ops.subrange(0, n + 1int) =~= v1.ops);
    assert(v2.ops.subrange(n + 1int, v2.ops.len() as int) =~= (if v.client is Some {
        seq![McpAction::ClientDone(v.client->0, 0), McpAction::I2c(I2cAction::Disable)]
    } else {
        seq![McpAction::I2c(I2cAction::Disable)]
    }));
}

// ---------------------------------------------------------------------
// Every accepted request ends with one callback.
// ---------------------------------------------------------------------
/// The driver after the bus completed transfers one after another, handing
/// back the buffers `bs` in order.
pub open spec fn after_completions(v: Mcp23008View, bs: Seq<Seq<u8>>) -> Mcp23008View
    decreases bs.len(),
{
    if bs.len() == 0 {
        v
    } else {
        after_completions(after_complete(v, bs[0]), bs.drop_first())
    }
}

/// The number of `done` callbacks among `ops`.
pub open spec fn done_count(ops: Seq<McpAction>) -> nat
    decreases ops.len(),
{
    if ops.len() == 0 {
        0
    } else {
        done_count(ops.drop_last()) + if ops.last() is ClientDone {
            1nat
        } else {
            0nat
        }
    }
}

/// The number of transfers that an accepted port request takes.
pub open spec fn transfers_needed(op: PortOp) -> nat {
    match op {
        PortOp::Read(_) => 2,
        PortOp::EnableInterrupt(..) => 2,
        PortOp::DisableInterrupt(_) => 1,
        PortOp::EnableInput(_, InputMode::PullDown) => 3,
        PortOp::EnableInput(_, _) => 6,
        _ => 3,
    }
}

proof fn lemma_done_count_push(s: Seq<McpAction>, x: McpAction)
    ensures
        done_count(s.push(x)) == done_count(s) + if x is ClientDone {
            1nat
        } else {
            0nat
        },
{
    assert(s.push(x).drop_last() =~= s);
}

/// The `done` callbacks that one completion sends.
pub open spec fn step_dones(v: Mcp23008View) -> nat {
    if v.client is Some && (v.state == State::ReadGpioRead || (v.state == State::Done && v.pending_pullup is None)) {
        1
    } else {
        0
    }
}

proof fn lemma_finished_ops(v: Mcp23008View, b: Seq<u8>, notice: Option<Notice>)
    requires
        notice matches Some(n) ==> n is Done,
    ensures
        finished(v, b, notice).ops.len() >= v.ops.len(),
        finished(v, b, notice).ops.subrange(0, v.ops.len() as int) == v.ops,
        done_count(finished(v, b, notice).ops) == done_count(v.ops) + if v.client is Some && notice is Some {
            1nat
        } else {
            0nat
        },
{
    let w = finished(v, b, notice);
    let dis = McpAction::I2c(I2cAction::Disable);
    match notice {
        Some(nt) => {
            if v.client is Some {
                let n = notice_action(v.client->0, nt);
                assert(w.ops =~= v.ops.push(n).push(dis));
                lemma_done_count_push(v.ops, n);
                lemma_done_count_push(v.ops.push(n), dis);
            } else {
                assert(w.ops =~= v.ops.push(dis));
                lemma_done_count_push(v.ops, dis);
            }
        },
        None => {
            assert(w.ops =~= v.ops.push(dis));
            lemma_done_count_push(v.ops, dis);
        },
    }
    assert(w.ops.subrange(0, v.ops.len() as int) =~= v.ops);
}

proof fn lemma_step_ops(v: Mcp23008View, b: Seq<u8>)
    requires
        v.state != State::ReadInterruptValues,
    ensures
        after_complete(v, b).ops.len() >= v.ops.len(),
        after_complete(v, b).ops.subrange(0, v.ops.len() as int) == v.ops,
        done_count(after_complete(v, b).ops) == done_count(v.ops) + step_dones(v),
{
    let w = after_complete(v, b);
    if v.state == State::ReadGpioRead {
        lemma_finished_ops(v, b, Some(Notice::Done(((b[0] >> b[1]) & 0x01u8) as usize)));
    } else if v.state == State::Done && v.pending_pullup is None {
        lemma_finished_ops(v, b, Some(Notice::Done(0)));
    } else if v.state == State::Idle {
    } else {
        // one transfer is logged
        assert(w.ops.len() == v.ops.len() + 1);
        assert(w.ops =~= v.ops.push(w.ops.last()));
        assert(w.ops.last() is I2c);
        lemma_done_count_push(v.ops, w.ops.last());
        assert(w.ops.subrange(0, v.ops.len() as int) =~= v.ops);
    }
}

/// The `done` callbacks sent along a run of completions.
pub open spec fn dones_along(v: Mcp23008View, bs: Seq<Seq<u8>>) -> nat
    decreases bs.len(),
{
    if bs.len() == 0 {
        0
    } else {
        step_dones(v) + dones_along(after_complete(v, bs[0]), bs.drop_first())
    }
}

/// Whether a run of completions never reaches the interrupt report.
pub open spec fn avoids_interrupt_report(v: Mcp23008View, bs: Seq<Seq<u8>>) -> bool
    decreases bs.len(),
{
    bs.len() == 0 || (v.state != State::ReadInterruptValues && avoids_interrupt_report(
        after_complete(v, bs[0]),
        bs.drop_first(),
    ))
}

proof fn lemma_run_ops(v: Mcp23008View, bs: Seq<Seq<u8>>)
    requires
        avoids_interrupt_report(v, bs),
    ensures
        after_completions(v, bs).ops.len() >= v.ops.len(),
        after_completions(v, bs).ops.subrange(0, v.ops.len() as int) == v.ops,
        done_count(after_completions(v, bs).ops) == done_count(v.ops) + dones_along(v, bs),
    decreases bs.len(),
{
    if bs.len() > 0 {
        let v1 = after_complete(v, bs[0]);
        lemma_step_ops(v, bs[0]);
        lemma_run_ops(v1, bs.drop_first());
        let w = after_completions(v, bs);
        assert(w.ops.subrange(0, v.ops.len() as int) =~= w.ops.subrange(0, v1.ops.len() as int).subrange(
            0,
            v.ops.len() as int,
        ));
    }
}

/// One completion, then the rest.
proof fn lemma_unfold(v: Mcp23008View, bs: Seq<Seq<u8>>)
    requires
        bs.len() > 0,
    ensures
        after_completions(v, bs) == after_completions(after_complete(v, bs[0]), bs.drop_first()),
        dones_along(v, bs) == step_dones(v) + dones_along(after_complete(v, bs[0]), bs.drop_first()),
        avoids_interrupt_report(v, bs) == (v.state != State::ReadInterruptValues && avoids_interrupt_report(
            after_complete(v, bs[0]),
            bs.drop_first(),
        )),
{
}

/// The last completion of a run.
proof fn lemma_last(v: Mcp23008View, b: Seq<u8>)
    ensures
        after_completions(v, seq![b]) == after_complete(v, b),
        dones_along(v, seq![b]) == step_dones(v),
        avoids_interrupt_report(v, seq![b]) == (v.state != State::ReadInterruptValues),
{
    let e = seq![b].drop_first();
    assert(e =~= Seq::<Seq<u8>>::empty());
    assert(e.len() == 0);
    let w = after_complete(v, b);
    assert(after_completions(w, e) == w);
    assert(dones_along(w, e) == 0);
    assert(avoids_interrupt_report(w, e));
    assert(seq![b][0] == b);
}

/// The facts about a run that ends idle with one `done` (if there is a
/// client) and the last buffer handed back.
pub open spec fn run_finishes(v: Mcp23008View, bs: Seq<Seq<u8>>) -> bool {
    &&& bs.len() > 0
    &&& after_completions(v, bs).state == State::Idle
    &&& after_completions(v, bs).buffer == Some(bs[bs.len() - 1])
    &&& avoids_interrupt_report(v, bs)
    &&& dones_along(v, bs) == if v.client is Some {
        1nat
    } else {
        0nat
    }
}

proof fn lemma_done_finishes(v: Mcp23008View, bs: Seq<Seq<u8>>)
    requires
        v.state == State::Done,
        v.pending_pullup is None,
        bs.len() == 1,
    ensures
        run_finishes(v, bs),
{
    assert(bs =~= seq![bs[0]]);
    lemma_last(v, bs[0]);
}

proof fn lemma_two_step_finishes(v: Mcp23008View, bs: Seq<Seq<u8>>)
    requires
        v.state == State::SelectGpioRead || v.state == State::EnableInterruptSettings,
        v.pending_pullup is None,
        bs.len() == 2,
    ensures
        run_finishes(v, bs),
{
    lemma_unfold(v, bs);
    let v1 = after_complete(v, bs[0]);
    let bs1 = bs.drop_first();
    assert(bs1 =~= seq![bs[1]]);
    lemma_last(v1, bs[1]);
}

proof fn lemma_update_finishes(v: Mcp23008View, bs: Seq<Seq<u8>>)
    requires
        starts_register_update(v.state),
        v.pending_pullup is None,
        bs.len() == 3,
    ensures
        run_finishes(v, bs),
{
    lemma_unfold(v, bs);
    let v1 = after_complete(v, bs[0]);
    let bs1 = bs.drop_first();
    lemma_unfold(v1, bs1);
    let v2 = after_complete(v1, bs1[0]);
    let bs2 = bs1.drop_first();
    assert(bs2 =~= seq![bs[2]]);
    lemma_last(v2, bs[2]);
}

proof fn lemma_input_with_pull_finishes(v: Mcp23008View, bs: Seq<Seq<u8>>)
    requires
        v.state == State::SelectIoDir,
        v.pending_pullup is Some,
        bs.len() == 6,
    ensures
        run_finishes(v, bs),
{
    lemma_unfold(v, bs);
    let v1 = after_complete(v, bs[0]);
    let bs1 = bs.drop_first();
    lemma_unfold(v1, bs1);
    let v2 = after_complete(v1, bs1[0]);
    let bs2 = bs1.drop_first();
    lemma_unfold(v2, bs2);
    let v3 = after_complete(v2, bs2[0]);
    let bs3 = bs2.drop_first();
    assert(v3.state == State::SelectGpPu && v3.pending_pullup is None);
    assert(step_dones(v) == 0 && step_dones(v1) == 0 && step_dones(v2) == 0);
    lemma_update_finishes(v3, bs3);
    assert(bs3[bs3.len() - 1] == bs[bs.len() - 1]);
}

proof fn lemma_request_facts(m: MCP23008, op: PortOp, new: MCP23008)
    requires
        m@.wf(),
        m.port_step(op, new, 0),
    ensures
        new@.ops.len() >= m@.ops.len(),
        new@.ops.subrange(0, m@.ops.len() as int) == m@.ops,
        done_count(new@.ops) == done_count(m@.ops),
        new@.client == m@.client,
        match op {
            PortOp::Read(_) => new@.state == State::SelectGpioRead && new@.pending_pullup is None,
            PortOp::EnableInterrupt(..) => new@.state == State::EnableInterruptSettings && new@.pending_pullup is None,
            PortOp::DisableInterrupt(_) => new@.state == State::Done && new@.pending_pullup is None,
            PortOp::EnableInput(_, InputMode::PullDown) => new@.state == State::SelectIoDir && new@.pending_pullup is None,
            PortOp::EnableInput(_, _) => new@.state == State::SelectIoDir && new@.pending_pullup is Some,
            _ => starts_register_update(new@.state) && new@.pending_pullup is None,
        },
{
    let v = m@;
    let n = new@;
    assert(v.buffer is Some && v.state == State::Idle && v.pending_pullup is None);
    let extra = n.ops.subrange(v.ops.len() as int, n.ops.len() as int);
    assert(n.ops =~= v.ops + extra);
    assert(n.ops.subrange(0, v.ops.len() as int) =~= v.ops);
    assert(forall|j: int| 0 <= j < extra.len() ==> !(#[trigger] extra[j] is ClientDone));
    lemma_no_done(extra);
    lemma_done_count_add(v.ops, extra);
}

proof fn lemma_no_done(s: Seq<McpAction>)
    requires
        forall|j: int| 0 <= j < s.len() ==> !(#[trigger] s[j] is ClientDone),
    ensures
        done_count(s) == 0,
    decreases s.len(),
{
    if s.len() > 0 {
        assert(!(s[s.len() - 1] is ClientDone));
        lemma_no_done(s.drop_last());
    }
}

proof fn lemma_done_count_add(a: Seq<McpAction>, b: Seq<McpAction>)
    ensures
        done_count(a + b) == done_count(a) + done_count(b),
    decreases b.len(),
{
    if b.len() > 0 {
        lemma_done_count_add(a, b.drop_last());
        assert((a + b).drop_last() =~= a + b.drop_last());
    }
}

/// A request that the port accepted (answer 0) finishes after the bus
/// completes `transfers_needed` transfers: the driver is idle again and
/// holds the buffer handed back last, the effects logged before the request
/// are kept, and the client (if any) gets exactly one `done` for it.
pub proof fn lemma_accepted_request_finishes(m: MCP23008, op: PortOp, new: MCP23008, bs: Seq<Seq<u8>>)
    requires
        m@.wf(),
        m.port_step(op, new, 0),
        bs.len() == transfers_needed(op),
    ensures
        ({
            let w = after_completions(new@, bs);
            &&& w.state == State::Idle
            &&& w.buffer == Some(bs[bs.len() - 1])
            &&& w.ops.subrange(0, m@.ops.len() as int) == m@.ops
            &&& done_count(w.ops) == done_count(m@.ops) + if m@.client is Some {
                1nat
            } else {
                0nat
            }
        }),
{
    let n = new@;
    lemma_request_facts(m, op, new);
    match op {
        PortOp::Read(_) => lemma_two_step_finishes(n, bs),
        PortOp::EnableInterrupt(..) => lemma_two_step_finishes(n, bs),
        PortOp::DisableInterrupt(_) => lemma_done_finishes(n, bs),
        PortOp::EnableInput(_, mode) => {
            if mode == InputMode::PullDown {
                lemma_update_finishes(n, bs);
            } else {
                lemma_input_with_pull_finishes(n, bs);
            }
        },
        _ => lemma_update_finishes(n, bs),
    }
    lemma_run_ops(n, bs);
    let w = after_completions(n, bs);
    assert(w.ops.subrange(0, m@.ops.len() as int) =~= w.ops.subrange(0, n.ops.len() as int).subrange(
        0,
        m@.ops.len() as int,
    ));
}

/// Whether an effect notifies a client other than `client`.
pub open spec fn notifies_other(a: McpAction, client: Option<usize>) -> bool {
    match a {
        McpAction::ClientDone(c, _) => client != Some(c),
        McpAction::ClientFired(c, _) => client != Some(c),
        _ => false,
    }
}

/// A completion keeps the client and identifier, and every notification it
/// sends goes to the client last set (with `set_client`).
pub proof fn lemma_notifications_go_to_client(v: Mcp23008View, b: Seq<u8>)
    ensures
        after_complete(v, b).client == v.client,
        after_complete(v, b).identifier == v.identifier,
        after_complete(v, b).ops.len() >= v.ops.len(),
        forall|i: int|
            v.ops.len() <= i < after_complete(v, b).ops.len() ==> !notifies_other(
                #[trigger] after_complete(v, b).ops[i],
                v.client,
            ),
{
    let w = after_complete(v, b);
    assert forall|i: int| v.ops.len() <= i < w.ops.len() implies !notifies_other(#[trigger] w.ops[i], v.client) by {
        if i == w.ops.len() - 1 {
        } else {
            assert(i == v.ops.len());
        }
    }
}

/// The register a read-modify-write state writes back.
pub open spec fn updated_register(s: State) -> u8 {
    if s == State::ReadIoDir {
        REG_IODIR
    } else if s == State::ReadGpPu {
        REG_GPPU
    } else {
        REG_GPIO
    }
}

/// Completing the read of a register (IODIR for a direction, GPPU for a
/// pull-up, GPIO for a level) writes it back: two bytes, the register
/// address and the value read with the requested pin's bit set exactly when
/// the requested value (byte 2) is 1 (input, pull-up on, high) and cleared
/// otherwise (output, no pull, low); every other bit is as read.  A toggle
/// flips the pin's bit and keeps the others.  The driver then waits for the
/// write to finish.
pub proof fn lemma_register_write_back(v: Mcp23008View, b: Seq<u8>)
    requires
        v.state == State::ReadIoDir || v.state == State::ReadGpPu || v.state == State::ReadGpio || v.state
            == State::ReadGpioToggle,
        b.len() >= 3,
        b[1] < 8,
    ensures
        after_complete(v, b).state == State::Done,
        after_complete(v, b).ops.len() == v.ops.len() + 1,
        after_complete(v, b).ops.subrange(0, v.ops.len() as int) == v.ops,
        after_complete(v, b).ops.last() matches McpAction::I2c(I2cAction::Write(w, len)) && len == 2 && w.len()
            == b.len() && w[0] == updated_register(v.state) && w[2] == b[2] && forall|j: u8|
            j < 8 ==> (((#[trigger] (w[1] >> j)) & 1u8 == 1u8) == if j == b[1] {
                if v.state == State::ReadGpioToggle {
                    (b[0] >> j) & 1u8 != 1u8
                } else {
                    b[2] == 1u8
                }
            } else {
                (b[0] >> j) & 1u8 == 1u8
            }),
{
    let w = after_complete(v, b);
    assert(w.ops.subrange(0, v.ops.len() as int) =~= v.ops);
    let pin = b[1];
    if v.state == State::ReadGpioToggle {
        let nb = b.update(1, b[0] ^ (1u8 << pin)).update(0, REG_GPIO);
        assert(w.ops.last() == McpAction::I2c(I2cAction::Write(nb, 2)));
        assert forall|j: u8| j < 8 implies (((#[trigger] (nb[1] >> j)) & 1u8 == 1u8) == if j == pin {
            (b[0] >> j) & 1u8 != 1u8
        } else {
            (b[0] >> j) & 1u8 == 1u8
        }) by {
            lemma_toggle_bit(b[0], pin, j);
            let x = b[0];
            assert((x >> j) & 1u8 == 1u8 || (x >> j) & 1u8 == 0u8) by (bit_vector);
            assert(((x ^ (1u8 << pin)) >> j) & 1u8 == 1u8 || ((x ^ (1u8 << pin)) >> j) & 1u8 == 0u8)
                by (bit_vector);
        }
    } else {
        let set = b[2] == 1u8;
        let nb = register_update(b, updated_register(v.state), set);
        assert(w.ops.last() == McpAction::I2c(I2cAction::Write(nb, 2)));
        assert forall|j: u8| j < 8 implies (((#[trigger] (nb[1] >> j)) & 1u8 == 1u8) == if j == pin {
            b[2] == 1u8
        } else {
            (b[0] >> j) & 1u8 == 1u8
        }) by {
            lemma_with_pin_bit(b[0], pin, set, j);
        }
    }
}

/// The interrupt report for one flagged pin: when the extender flags only
/// `pin`, whose interrupt was saved as enabled in `mode`, the client (if
/// any) is told exactly when the pin's level read (byte 2) matches the mode
/// (rising edge: now high; falling edge: now low; either edge: always), with
/// the port number in the low byte and the pin in the next byte; then the
/// bus is turned off and the driver is idle with its buffer.
pub proof fn lemma_interrupt_report(v: Mcp23008View, b: Seq<u8>, s0: u32, pin: u8, mode: InterruptMode)
    requires
        v.state == State::ReadInterruptValues,
        v.interrupt_settings == settings_saved(s0, pin, true, mode),
        pin < 8,
        b.len() >= 3,
        b[0] == 1u8 << pin,
    ensures
        ({
            let level_high = (b[2] >> pin) & 1u8 == 1u8;
            let reported = match mode {
                InterruptMode::RisingEdge => level_high,
                InterruptMode::FallingEdge => !level_high,
                InterruptMode::EitherEdge => true,
            };
            let w = after_complete(v, b);
            &&& w.state == State::Idle
            &&& w.buffer == Some(b)
            &&& w.ops == v.ops + (if reported && v.client is Some {
                seq![
                    McpAction::ClientFired(v.client->0, (v.identifier & 0xFFusize) | ((pin as usize) << 8usize)),
                    McpAction::I2c(I2cAction::Disable),
                ]
            } else {
                seq![McpAction::I2c(I2cAction::Disable)]
            })
        }),
{
    let st = v.interrupt_settings;
    let flags = b[0];
    let levels = b[2];
    // the saved settings of the pin read back
    if pin < 7 {
        lemma_settings_saved(s0, pin, true, mode, 7);
    } else {
        lemma_settings_saved(s0, pin, true, mode, 0);
    }
    // no other pin is flagged
    assert forall|j: u8| j < 8 && j != pin implies (#[trigger] (flags >> j)) & 1u8 == 0u8 by {
        assert(((1u8 << pin) >> j) & 1u8 == 0u8) by (bit_vector)
            requires
                pin < 8,
                j < 8,
                j != pin,
        ;
    }
    assert((flags >> pin) & 1u8 == 1u8) by (bit_vector)
        requires
            flags == 1u8 << pin,
            pin < 8,
    ;
    lemma_first_fired_single(st, flags, levels, pin, 0);
    assert(interrupt_enabled(st, pin));
    assert(interrupt_direction(st, pin) == mode);
    let level_high = (levels >> pin) & 1u8 == 1u8;
    let reported = match mode {
        InterruptMode::RisingEdge => level_high,
        InterruptMode::FallingEdge => !level_high,
        InterruptMode::EitherEdge => true,
    };
    assert((levels >> pin) & 1u8 == 1u8 || (levels >> pin) & 1u8 == 0u8) by (bit_vector);
    assert(pin_fires(st, flags, levels, pin) == reported);
    let w = after_complete(v, b);
    assert(w.ops =~= v.ops + (if pin_fires(st, flags, levels, pin) && v.client is Some {
        seq![
            McpAction::ClientFired(v.client->0, fired_identifier(v.identifier, pin)),
            McpAction::I2c(I2cAction::Disable),
        ]
    } else {
        seq![McpAction::I2c(I2cAction::Disable)]
    }));
}

proof fn lemma_first_fired_single(st: u32, flags: u8, levels: u8, pin: u8, i: nat)
    requires
        pin < 8,
        i <= 8,
        forall|j: u8| j < 8 && j != pin ==> (#[trigger] (flags >> j)) & 1u8 == 0u8,
    ensures
        first_fired(st, flags, levels, i) == if i <= pin && pin_fires(st, flags, levels, pin) {
            Some(pin)
        } else {
            None
        },
    decreases 8 - i,
{
    if i < 8 {
        lemma_first_fired_single(st, flags, levels, pin, i + 1);
        if i as u8 != pin {
            assert((flags >> (i as u8)) & 1u8 == 0u8);
        }
    }
}

/// While the buffer is with the bus, a request to the extender leaves the
/// driver as it was (the port refuses such requests with EBUSY, see
/// `refusal`).
pub proof fn lemma_busy_drops_commands(v: Mcp23008View, pin: u8, d: Direction, p: PinState, mode: InterruptMode)
    requires
        v.buffer is None,
    ensures
        after_set_direction(v, pin, d) == v,
        after_configure_pullup(v, pin, true) == v,
        after_set_pin(v, pin, p) == v,
        after_toggle_pin(v, pin) == v,
        after_read_pin(v, pin) == v,
        after_enable_interrupt_pin(v, pin, mode) == v,
        after_disable_interrupt_pin(v, pin) == v,
        after_fired(v) == v,
{
}

/// The MCP23008 driver.  It runs one command at a time: while a transfer
/// is in flight (the buffer is with the bus) the port refuses requests with
/// EBUSY.
pub struct MCP23008 {
    state: State,
    buffer: Option<Vec<u8>>,
    has_interrupt_pin: bool,
    interrupt_settings: u32,
    identifier: usize,
    client: Option<usize>,
    pending_pullup: Option<(u8, bool)>,
    ops: Vec<McpOp>,
}

impl View for MCP23008 {
    type V = Mcp23008View;

    closed spec fn view(&self) -> Mcp23008View {
        Mcp23008View {
            state: self.state,
            buffer: match self.buffer {
                Some(b) => Some(b@),
                None => None,
            },
            has_interrupt_pin: self.has_interrupt_pin,
            interrupt_settings: self.interrupt_settings,
            identifier: self.identifier,
            client: self.client,
            pending_pullup: self.pending_pullup,
            ops: mcp_ops_view(self.ops@),
        }
    }
}

impl MCP23008 {
    /// A driver for an extender on an I2C device, with (`has_interrupt_pin`)
    /// or without a host pin wired to the extender's interrupt line, using
    /// `buffer` for its messages.
    pub fn new(has_interrupt_pin: bool, buffer: Vec<u8>) -> (r: MCP23008)
        requires
            buffer@.len() >= 3,
        ensures
            r@ == (Mcp23008View {
                state: State::Idle,
                buffer: Some(buffer@),
                has_interrupt_pin,
                interrupt_settings: 0,
                identifier: 0,
                client: None,
                pending_pullup: None,
                ops: Seq::empty(),
            }),
            r@.wf(),
    {
        let r = MCP23008 {
            state: State::Idle,
            buffer: Some(buffer),
            has_interrupt_pin: has_interrupt_pin,
            interrupt_settings: 0,
            identifier: 0,
            client: None,
            pending_pullup: None,
            ops: Vec::new(),
        };
        assert(mcp_ops_view(r.ops@) =~= Seq::empty());
        r
    }

    /// Set the client of this MCP23008 when commands finish or interrupts
    /// occur, by the handle the platform knows it by (replacing any earlier
    /// client). The `identifier` is simply passed back with the callback
    /// so that the upper layer can keep track of which device triggered.
    pub fn set_client(&mut self, client: usize, identifier: usize)
        ensures
            final(self)@ == (Mcp23008View { client: Some(client), identifier, ..old(self)@ }),
    {
        self.client = Some(client);
        self.identifier = identifier;
    }

    /// Hands the platform the effects logged so far, oldest first.
    pub fn take_ops(&mut self) -> (r: Vec<McpOp>)
        ensures
            mcp_ops_view(r@) == old(self)@.ops,
            final(self)@ == (Mcp23008View { ops: Seq::empty(), ..old(self)@ }),
    {
        let mut r = Vec::new();
        std::mem::swap(&mut r, &mut self.ops);
        assert(mcp_ops_view(self.ops@) =~= Seq::empty());
        r
    }

    fn log(&mut self, op: McpOp)
        ensures
            final(self)@ == logged(old(self)@, seq![op@]),
    {
        self.ops.push(op);
        assert(mcp_ops_view(self.ops@) =~= mcp_ops_view(old(self).ops@) + seq![op@]);
    }

    /// Sends the first `len` bytes of `buffer` after turning the bus on.
    fn start(&mut self, buffer: Vec<u8>, len: u8, next: State)
        requires
            old(self).buffer is None,
        ensures
            final(self)@ == started(old(self)@, buffer@, len, next),
    {
        self.log(McpOp::I2c(I2cOp::Enable));
        self.log(McpOp::I2c(I2cOp::Write(buffer, len)));
        self.state = next;
        assert(self@.ops =~= old(self)@.ops + seq![
            McpAction::I2c(I2cAction::Enable),
            McpAction::I2c(I2cAction::Write(buffer@, len)),
        ]);
    }

    /// The host's interrupt pin is made an input with a rising-edge
    /// interrupt; fails with -1 where there is no such pin.
    pub fn enable_host_interrupt(&mut self) -> (r: isize)
        ensures
            old(self)@.has_interrupt_pin ==> r == 0 && final(self)@ == logged(
                old(self)@,
                seq![
                    McpAction::InterruptPinMakeInput,
                    McpAction::InterruptPinEnable(0, InterruptMode::RisingEdge),
                ],
            ),
            !old(self)@.has_interrupt_pin ==> r == -1 && final(self)@ == old(self)@,
    {
        if self.has_interrupt_pin {
            self.log(McpOp::InterruptPinMakeInput);
            self.log(McpOp::InterruptPinEnable(0, InterruptMode::RisingEdge));
            assert(self@.ops =~= old(self)@.ops + seq![
                McpAction::InterruptPinMakeInput,
                McpAction::InterruptPinEnable(0, InterruptMode::RisingEdge),
            ]);
            0
        } else {
            -1
        }
    }

    /// Requests that `pin` become an input or an output.
    pub fn set_direction(&mut self, pin_number: u8, direction: Direction)
        requires
            old(self)@.wf(),
        ensures
            final(self)@ == after_set_direction(old(self)@, pin_number, direction),
            final(self)@.wf(),
    {
        match self.buffer.take() {
            Some(mut buffer) => {
                buffer.set(0, REG_IODIR);
                buffer.set(1, pin_number);
                buffer.set(2, direction.value());
                self.start(buffer, 1, State::SelectIoDir);
            },
            None => {},
        }
    }

    /// Requests that the pull-up of `pin` be turned on or off.
    pub fn configure_pullup(&mut self, pin_number: u8, enabled: bool)
        requires
            old(self)@.wf(),
        ensures
            final(self)@ == after_configure_pullup(old(self)@, pin_number, enabled),
            final(self)@.wf(),
    {
        match self.buffer.take() {
            Some(mut buffer) => {
                buffer.set(0, REG_GPPU);
                buffer.set(1, pin_number);
                buffer.set(2, if enabled { 1u8 } else { 0u8 });
                self.start(buffer, 1, State::SelectGpPu);
            },
            None => {},
        }
    }

    /// Requests that output `pin` be driven high or low.
    pub fn set_pin(&mut self, pin_number: u8, value: PinState)
        requires
            old(self)@.wf(),
        ensures
            final(self)@ == after_set_pin(old(self)@, pin_number, value),
            final(self)@.wf(),
    {
        match self.buffer.take() {
            Some(mut buffer) => {
                buffer.set(0, REG_GPIO);
                buffer.set(1, pin_number);
                buffer.set(2, value.value());
                self.start(buffer, 1, State::SelectGpio);
            },
            None => {},
        }
    }

    /// Requests that output `pin` be toggled.
    pub fn toggle_pin(&mut self, pin_number: u8)
        requires
            old(self)@.wf(),
        ensures
            final(self)@ == after_toggle_pin(old(self)@, pin_number),
            final(self)@.wf(),
    {
        match self.buffer.take() {
            Some(mut buffer) => {
                buffer.set(0, REG_GPIO);
                buffer.set(1, pin_number);
                self.start(buffer, 1, State::SelectGpioToggle);
            },
            None => {},
        }
    }

    /// Requests the level of `pin`; the client gets it with `done`.
    pub fn read_pin(&mut self, pin_number: u8)
        requires
            old(self)@.wf(),
        ensures
            final(self)@ == after_read_pin(old(self)@, pin_number),
            final(self)@.wf(),
    {
        match self.buffer.take() {
            Some(mut buffer) => {
                buffer.set(0, REG_GPIO);
                buffer.set(1, pin_number);
                self.start(buffer, 1, State::SelectGpioRead);
            },
            None => {},
        }
    }

    /// Records that `pin` interrupts in `direction` and configures the
    /// extender to interrupt on every change with an active-high line.
    /// The extender only supports level and both-edge interrupts, so both
    /// edges are enabled and the direction the client asked for is
    /// filtered here.
    pub fn enable_interrupt_pin(&mut self, pin_number: u8, direction: InterruptMode)
        requires
            old(self)@.wf(),
            pin_number < 8,
        ensures
            final(self)@ == after_enable_interrupt_pin(old(self)@, pin_number, direction),
            final(self)@.wf(),
    {
        match self.buffer.take() {
            Some(mut buffer) => {
                self.save_pin_interrupt_state(pin_number, true, direction);
                buffer.set(0, REG_INTCON);
                buffer.set(1, 0);
                buffer.set(2, 0b00000010);
                self.start(buffer, 3, State::EnableInterruptSettings);
            },
            None => {},
        }
    }

    /// Forgets the interrupt of `pin` and writes the new set of enabled
    /// interrupts to the extender.
    pub fn disable_interrupt_pin(&mut self, pin_number: u8)
        requires
            old(self)@.wf(),
            pin_number < 8,
        ensures
            final(self)@ == after_disable_interrupt_pin(old(self)@, pin_number),
            final(self)@.wf(),
    {
        match self.buffer.take() {
            Some(mut buffer) => {
                self.remove_pin_interrupt_state(pin_number);
                buffer.set(0, REG_GPINTEN);
                let mask = self.get_pin_interrupt_enabled_state();
                buffer.set(1, mask);
                self.start(buffer, 2, State::Done);
            },
            None => {},
        }
    }

    /// Replaces the interrupt settings of `pin`.
    pub fn save_pin_interrupt_state(&mut self, pin_number: u8, enabled: bool, direction: InterruptMode)
        requires
            pin_number < 8,
        ensures
            final(self)@ == (Mcp23008View {
                interrupt_settings: settings_saved(old(self)@.interrupt_settings, pin_number, enabled, direction),
                ..old(self)@
            }),
    {
        let mut current_state = self.interrupt_settings;
        current_state = current_state & !(0x0Fu32 << (4 * pin_number));
        let new_settings = (((if enabled { 1u8 } else { 0u8 }) | (direction.number() << 1u8)) & 0x0Fu8) as u32;
        current_state = current_state | (new_settings << (4 * pin_number));
        self.interrupt_settings = current_state;
    }

    /// Clears the interrupt settings of `pin`.
    pub fn remove_pin_interrupt_state(&mut self, pin_number: u8)
        requires
            pin_number < 8,
        ensures
            final(self)@ == (Mcp23008View {
                interrupt_settings: settings_cleared(old(self)@.interrupt_settings, pin_number),
                ..old(self)@
            }),
    {
        let new_settings = self.interrupt_settings & !(0x0Fu32 << (4 * pin_number));
        self.interrupt_settings = new_settings;
    }

    /// Create an 8 bit bitmask of which interrupts are enabled.
    pub fn get_pin_interrupt_enabled_state(&self) -> (r: u8)
        ensures
            r == enabled_mask(self@.interrupt_settings),
            forall|pin: u8| pin < 8 ==> (((r >> pin) & 1u8 == 1u8) == interrupt_enabled(self@.interrupt_settings, pin)),
    {
        let current_state = self.interrupt_settings;
        let mut interrupts_enabled: u8 = 0;
        let mut i: u8 = 0;
        while i < 8
            invariant
                i <= 8,
                current_state == self@.interrupt_settings,
                interrupts_enabled == enabled_mask_below(current_state, i as nat),
            decreases 8 - i,
        {
            if ((current_state >> (4 * i)) & 0x01) == 0x01 {
                interrupts_enabled = interrupts_enabled | (1u8 << i);
            } else {
                assert(interrupts_enabled | 0u8 == interrupts_enabled) by (bit_vector);
            }
            i = i + 1;
        }
        proof {
            assert forall|pin: u8| pin < 8 implies (((interrupts_enabled >> pin) & 1u8 == 1u8) == interrupt_enabled(current_state, pin)) by {
                lemma_enabled_mask_bit(current_state, pin);
            }
        }
        interrupts_enabled
    }

    /// Whether the interrupt of `pin` is enabled.
    pub fn check_pin_interrupt_enabled(&self, pin_number: u8) -> (r: bool)
        requires
            pin_number < 8,
        ensures
            r == interrupt_enabled(self@.interrupt_settings, pin_number),
    {
        (self.interrupt_settings >> (pin_number * 4)) & 0x01 == 0x01
    }

    /// The interrupt mode recorded for `pin`.
    pub fn get_pin_interrupt_direction(&self, pin_number: u8) -> (r: InterruptMode)
        requires
            pin_number < 8,
        ensures
            r == interrupt_direction(self@.interrupt_settings, pin_number),
    {
        let direction = (self.interrupt_settings >> ((pin_number * 4) + 1)) & 0x03;
        match direction {
            0 => InterruptMode::RisingEdge,
            1 => InterruptMode::FallingEdge,
            _ => InterruptMode::EitherEdge,
        }
    }
}

impl MCP23008 {
    /// The lowest pin whose interrupt the client asked for, given the
    /// interrupt flags and pin levels read from the extender.
    fn first_interrupt(&self, interrupt_flags: u8, pins_status: u8) -> (r: Option<u8>)
        ensures
            r == first_fired(self@.interrupt_settings, interrupt_flags, pins_status, 0),
    {
        let ghost s = self@.interrupt_settings;
        let mut fired: Option<u8> = None;
        let mut i: u8 = 0;
        while i < 8
            invariant
                i <= 8,
                s == self@.interrupt_settings,
                fired is None ==> first_fired(s, interrupt_flags, pins_status, 0) == first_fired(
                    s,
                    interrupt_flags,
                    pins_status,
                    i as nat,
                ),
                fired is Some ==> first_fired(s, interrupt_flags, pins_status, 0) == fired,
            decreases 8 - i,
        {
            if fired.is_none() {
                // Check that this pin is actually enabled.
                if self.check_pin_interrupt_enabled(i) && (interrupt_flags >> i) & 0x01 == 0x01 {
                    // Use the GPIO register to determine which way the
                    // interrupt went.
                    let pin_status = (pins_status >> i) & 0x01;
                    let interrupt_direction = self.get_pin_interrupt_direction(i);
                    // Check to see if this was an interrupt we want to report.
                    let fire_interrupt = match interrupt_direction {
                        InterruptMode::EitherEdge => true,
                        InterruptMode::RisingEdge => pin_status == 0x01,
                        InterruptMode::FallingEdge => pin_status == 0x00,
                    };
                    if fire_interrupt {
                        fired = Some(i);
                    }
                }
            }
            i = i + 1;
        }
        fired
    }

    /// Ends a command: tells the client (if any), takes the buffer back and
    /// turns the bus off.
    fn finish(&mut self, buffer: Vec<u8>, notice: Option<Notice>)
        ensures
            final(self)@ == finished(old(self)@, buffer@, notice),
    {
        match notice {
            Some(n) => match self.client {
                Some(c) => {
                    let op = match n {
                        Notice::Done(x) => McpOp::ClientDone(c, x),
                        Notice::Fired(x) => McpOp::ClientFired(c, x),
                    };
                    self.log(op);
                },
                None => {},
            },
            None => {},
        }
        self.buffer = Some(buffer);
        self.log(McpOp::I2c(I2cOp::Disable));
        self.state = State::Idle;
        assert(self@.ops =~= finished(old(self)@, buffer@, notice).ops);
    }

    /// Hands `buffer` to the bus to read `len` bytes into.
    fn read_into(&mut self, buffer: Vec<u8>, len: u8, next: State)
        ensures
            final(self)@ == reading(old(self)@, buffer@, len, next),
    {
        self.log(McpOp::I2c(I2cOp::Read(buffer, len)));
        self.state = next;
        assert(self@.ops =~= old(self)@.ops.push(McpAction::I2c(I2cAction::Read(buffer@, len))));
    }

    /// Hands `buffer` to the bus to write `len` bytes of.
    fn write_from(&mut self, buffer: Vec<u8>, len: u8, next: State)
        ensures
            final(self)@ == writing(old(self)@, buffer@, len, next),
    {
        self.log(McpOp::I2c(I2cOp::Write(buffer, len)));
        self.state = next;
        assert(self@.ops =~= old(self)@.ops.push(McpAction::I2c(I2cAction::Write(buffer@, len))));
    }

    /// The bus finished the transfer of the current state and hands
    /// `buffer` back.  Each register update is a read of the register
    /// followed by a write of it with the pin's bit changed; a read of a pin
    /// and the end of every other command tell the client with `done`, an
    /// interrupt tells it with `fired` for the lowest pin whose interrupt it
    /// asked for.
    pub fn command_complete(&mut self, buffer: Vec<u8>, _error: Error)
        requires
            old(self)@.wf(),
            completion_ok(old(self)@.state, buffer@),
        ensures
            final(self)@ == after_complete(old(self)@, buffer@),
            final(self)@.wf(),
    {
        let mut buffer = buffer;
        match self.state {
            State::SelectIoDir => {
                self.read_into(buffer, 1, State::ReadIoDir);
            },
            State::ReadIoDir => {
                let pin_number = buffer[1];
                let direction = buffer[2];
                if direction == Direction::Input.value() {
                    let v = buffer[0] | (1u8 << pin_number);
                    buffer.set(1, v);
                } else {
                    let v = buffer[0] & !(1u8 << pin_number);
                    buffer.set(1, v);
                }
                buffer.set(0, REG_IODIR);
                self.write_from(buffer, 2, State::Done);
            },
            State::SelectGpPu => {
                self.read_into(buffer, 1, State::ReadGpPu);
            },
            State::ReadGpPu => {
                let pin_number = buffer[1];
                let enabled = buffer[2] == 1;
                if enabled {
                    let v = buffer[0] | (1u8 << pin_number);
                    buffer.set(1, v);
                } else {
                    let v = buffer[0] & !(1u8 << pin_number);
                    buffer.set(1, v);
                }
                buffer.set(0, REG_GPPU);
                self.write_from(buffer, 2, State::Done);
            },
            State::SelectGpio => {
                self.read_into(buffer, 1, State::ReadGpio);
            },
            State::ReadGpio => {
                let pin_number = buffer[1];
                let value = buffer[2];
                if value == PinState::High.value() {
                    let v = buffer[0] | (1u8 << pin_number);
                    buffer.set(1, v);
                } else {
                    let v = buffer[0] & !(1u8 << pin_number);
                    buffer.set(1, v);
                }
                buffer.set(0, REG_GPIO);
                self.write_from(buffer, 2, State::Done);
            },
            State::SelectGpioToggle => {
                self.read_into(buffer, 1, State::ReadGpioToggle);
            },
            State::ReadGpioToggle => {
                let pin_number = buffer[1];
                let v = buffer[0] ^ (1u8 << pin_number);
                buffer.set(1, v);
                buffer.set(0, REG_GPIO);
                self.write_from(buffer, 2, State::Done);
            },
            State::SelectGpioRead => {
                self.read_into(buffer, 1, State::ReadGpioRead);
            },
            State::ReadGpioRead => {
                let pin_number = buffer[1];
                let pin_value = (buffer[0] >> pin_number) & 0x01;
                self.finish(buffer, Some(Notice::Done(pin_value as usize)));
            },
            State::EnableInterruptSettings => {
                // Rather than read the current interrupts and write those
                // back, just write the entire register with our saved state.
                buffer.set(0, REG_GPINTEN);
                let mask = self.get_pin_interrupt_enabled_state();
                buffer.set(1, mask);
                self.write_from(buffer, 2, State::Done);
            },
            State::ReadInterruptSetup => {
                // Now read the interrupt flags and the state of the lines.
                self.read_into(buffer, 3, State::ReadInterruptValues);
            },
            State::ReadInterruptValues => {
                let interrupt_flags = buffer[0];
                let pins_status = buffer[2];
                let notice = match self.first_interrupt(interrupt_flags, pins_status) {
                    // Put the port number in the lower half of the forwarded
                    // identifier.
                    Some(i) => Some(Notice::Fired((self.identifier & 0x00FF) | ((i as usize) << 8))),
                    None => None,
                };
                self.finish(buffer, notice);
            },
            State::Done => {
                match self.pending_pullup {
                    Some((pin_number, enabled)) => {
                        // The direction is set: now write the pull-up.
                        self.pending_pullup = None;
                        buffer.set(0, REG_GPPU);
                        buffer.set(1, pin_number);
                        buffer.set(2, if enabled { 1u8 } else { 0u8 });
                        self.write_from(buffer, 1, State::SelectGpPu);
                    },
                    None => {
                        self.finish(buffer, Some(Notice::Done(0)));
                    },
                }
            },
            State::Idle => {},
        }
    }

    /// The extender raised its interrupt line: read which pins interrupted.
    pub fn fired(&mut self, _pin: usize)
        requires
            old(self)@.wf(),
        ensures
            final(self)@ == after_fired(old(self)@),
            final(self)@.wf(),
    {
        match self.buffer.take() {
            Some(mut buffer) => {
                // Need to read the IntF register which marks which pins
                // interrupted.
                buffer.set(0, REG_INTF);
                self.start(buffer, 1, State::ReadInterruptSetup);
            },
            None => {},
        }
    }
}

/// The port after a request to make `pin` an input with pull `mode`: the
/// direction is written first, and the pull-up is written when that is
/// done (a pull-down is not supported, so nothing is written for it).
pub open spec fn after_enable_input(v: Mcp23008View, pin: u8, mode: InputMode) -> Mcp23008View {
    let v1 = after_set_direction(v, pin, Direction::Input);
    match mode {
        InputMode::PullUp => Mcp23008View { pending_pullup: Some((pin, true)), ..v1 },
        InputMode::PullDown => v1,
        InputMode::PullNone => Mcp23008View { pending_pullup: Some((pin, false)), ..v1 },
    }
}

/// The answer with which the port refuses a request on `pin`, if it does:
/// -1 for a pin the extender does not have, the EBUSY code while a
/// transfer is in flight.
pub open spec fn refusal(v: Mcp23008View, pin: usize) -> Option<int> {
    if pin > 7 {
        Some(-1)
    } else if v.buffer is None {
        Some(return_code_value(ReturnCode::EBUSY))
    } else {
        None
    }
}

impl GPIOAsyncPort for MCP23008 {
    open spec fn port_inv(&self) -> bool {
        self@.wf()
    }

    /// A request is refused (see `refusal`) or accepted with 0; an
    /// accepted request ends with one `done` to the client.
    open spec fn port_step(&self, op: PortOp, new: Self, r: isize) -> bool {
        let v = self@;
        match op {
            PortOp::Disable(pin) => match refusal(v, pin) {
                Some(e) => r == e && new@ == v,
                None => r == 0 && new@ == after_set_direction(v, pin as u8, Direction::Input),
            },
            PortOp::EnableOutput(pin) => match refusal(v, pin) {
                Some(e) => r == e && new@ == v,
                None => r == 0 && new@ == after_set_direction(v, pin as u8, Direction::Output),
            },
            PortOp::EnableInput(pin, mode) => match refusal(v, pin) {
                Some(e) => r == e && new@ == v,
                None => r == 0 && new@ == after_enable_input(v, pin as u8, mode),
            },
            PortOp::Read(pin) => match refusal(v, pin) {
                Some(e) => r == e && new@ == v,
                None => r == 0 && new@ == after_read_pin(v, pin as u8),
            },
            PortOp::Toggle(pin) => match refusal(v, pin) {
                Some(e) => r == e && new@ == v,
                None => r == 0 && new@ == after_toggle_pin(v, pin as u8),
            },
            PortOp::SetPin(pin) => match refusal(v, pin) {
                Some(e) => r == e && new@ == v,
                None => r == 0 && new@ == after_set_pin(v, pin as u8, PinState::High),
            },
            PortOp::ClearPin(pin) => match refusal(v, pin) {
                Some(e) => r == e && new@ == v,
                None => r == 0 && new@ == after_set_pin(v, pin as u8, PinState::Low),
            },
            PortOp::EnableInterrupt(pin, mode, _identifier) => if !v.has_interrupt_pin {
                // without a host interrupt pin no interrupt can be enabled
                r == -1 && new@ == v
            } else {
                match refusal(v, pin) {
                    Some(e) => r == e && new@ == v,
                    None => r == 0 && new@ == after_enable_interrupt_pin(
                        logged(
                            v,
                            seq![
                                McpAction::InterruptPinMakeInput,
                                McpAction::InterruptPinEnable(0, InterruptMode::RisingEdge),
                            ],
                        ),
                        pin as u8,
                        mode,
                    ),
                }
            },
            PortOp::DisableInterrupt(pin) => match refusal(v, pin) {
                Some(e) => r == e && new@ == v,
                None => r == 0 && new@ == after_disable_interrupt_pin(v, pin as u8),
            },
        }
    }

    /// Best we can do is make this an input.
    fn disable(&mut self, pin: usize) -> (r: isize) {
        if pin > 7 {
            -1
        } else if self.buffer.is_none() {
            ReturnCode::EBUSY.value()
        } else {
            self.set_direction(pin as u8, Direction::Input);
            0
        }
    }

    fn enable_output(&mut self, pin: usize) -> (r: isize) {
        if pin > 7 {
            -1
        } else if self.buffer.is_none() {
            ReturnCode::EBUSY.value()
        } else {
            self.set_direction(pin as u8, Direction::Output);
            0
        }
    }

    fn enable_input(&mut self, pin: usize, mode: InputMode) -> (r: isize) {
        if pin > 7 {
            -1
        } else if self.buffer.is_none() {
            ReturnCode::EBUSY.value()
        } else {
            self.set_direction(pin as u8, Direction::Input);
            match mode {
                InputMode::PullUp => {
                    self.pending_pullup = Some((pin as u8, true));
                },
                InputMode::PullDown => {
                    // No support for this
                },
                InputMode::PullNone => {
                    self.pending_pullup = Some((pin as u8, false));
                },
            }
            0
        }
    }

    fn read(&mut self, pin: usize) -> (r: isize) {
        if pin > 7 {
            -1
        } else if self.buffer.is_none() {
            ReturnCode::EBUSY.value()
        } else {
            self.read_pin(pin as u8);
            0
        }
    }

    fn toggle(&mut self, pin: usize) -> (r: isize) {
        if pin > 7 {
            -1
        } else if self.buffer.is_none() {
            ReturnCode::EBUSY.value()
        } else {
            self.toggle_pin(pin as u8);
            0
        }
    }

    fn set(&mut self, pin: usize) -> (r: isize) {
        if pin > 7 {
            -1
        } else if self.buffer.is_none() {
            ReturnCode::EBUSY.value()
        } else {
            self.set_pin(pin as u8, PinState::High);
            0
        }
    }

    fn clear(&mut self, pin: usize) -> (r: isize) {
        if pin > 7 {
            -1
        } else if self.buffer.is_none() {
            ReturnCode::EBUSY.value()
        } else {
            self.set_pin(pin as u8, PinState::Low);
            0
        }
    }

    fn enable_interrupt(&mut self, pin: usize, mode: InterruptMode, _identifier: usize) -> (r: isize) {
        if pin > 7 || !self.has_interrupt_pin {
            return -1;
        }
        if self.buffer.is_none() {
            return ReturnCode::EBUSY.value();
        }
        let main_interrupt_enabled = self.enable_host_interrupt();
        if main_interrupt_enabled < 0 {
            return -1;
        }
        self.enable_interrupt_pin(pin as u8, mode);
        0
    }

    fn disable_interrupt(&mut self, pin: usize) -> (r: isize) {
        if pin > 7 {
            return -1;
        }
        if self.buffer.is_none() {
            return ReturnCode::EBUSY.value();
        }
        self.disable_interrupt_pin(pin as u8);
        0
    }
}

} // verus!
