//! Driver for the SAM4L watchdog timer (WDT).
use vstd::prelude::*;
use crate::hil::watchdog::Watchdog;

verus! {

/// The register block of the watchdog.
#[derive(Clone, Copy, PartialEq, Eq, Structural, Debug)]
pub struct WdtRegisters {
    pub cr: u32,
    pub clr: u32,
    pub sr: u32,
    pub ier: u32,
    pub idr: u32,
    pub imr: u32,
    pub isr: u32,
    pub icr: u32,
}

/// An effect of the driver on the chip.
#[derive(Clone, Copy, PartialEq, Eq, Structural, Debug)]
pub enum WdtOp {
    /// Turn the watchdog's clock on in the power manager.
    EnableClock,
    /// Turn the watchdog's clock off in the power manager.
    DisableClock,
    /// Write the control register.
    WriteCr(u32),
    /// Write the clear register.
    WriteClr(u32),
}

/// The two keys that a write must carry in its top byte, one after the
/// other, for the watchdog to take it.
pub const KEY_FIRST: u32 = 0x55;
pub const KEY_SECOND: u32 = 0xAA;

/// The control value that starts the watchdog: clock enable, PSEL 15 (a
/// 570 ms period), flash calibration done, disable after reset, enable.
pub const START_CONTROL: u32 = 0x0001_0F83;

/// A write of `value` to a keyed register: the same value with each key.
pub open spec fn keyed_writes(value: u32, cr: bool) -> Seq<WdtOp> {
    let first = (KEY_FIRST << 24u32) | value;
    let second = (KEY_SECOND << 24u32) | value;
    if cr {
        seq![WdtOp::WriteCr(first), WdtOp::WriteCr(second)]
    } else {
        seq![WdtOp::WriteClr(first), WdtOp::WriteClr(second)]
    }
}

/// The abstract state of the driver.
pub ghost struct WdtView {
    /// The register values last read from the hardware or written.
    pub registers: WdtRegisters,
    pub enabled: bool,
    /// Effects not yet taken by the platform, oldest first.
    pub ops: Seq<WdtOp>,
}

pub open spec fn after_start(v: WdtView) -> WdtView {
    WdtView {
        registers: WdtRegisters { cr: (KEY_SECOND << 24u32) | START_CONTROL, ..v.registers },
        enabled: true,
        ops: v.ops + seq![WdtOp::EnableClock] + keyed_writes(START_CONTROL, true),
    }
}

/// What a read of the control register gives: the key field (the top
/// byte) always reads as zero.
pub open spec fn cr_read(cr: u32) -> u32 {
    cr & 0x00FF_FFFFu32
}

pub open spec fn after_stop(v: WdtView) -> WdtView {
    let control = cr_read(v.registers.cr) & !0x01u32;
    WdtView {
        registers: WdtRegisters { cr: (KEY_SECOND << 24u32) | control, ..v.registers },
        enabled: false,
        ops: v.ops + keyed_writes(control, true) + seq![WdtOp::DisableClock],
    }
}

pub open spec fn after_tickle(v: WdtView) -> WdtView {
    WdtView {
        registers: WdtRegisters { clr: (KEY_SECOND << 24u32) | 1u32, ..v.registers },
        ops: v.ops + keyed_writes(1u32, false),
        ..v
    }
}

/// The watchdog timer.
pub struct Wdt {
    registers: WdtRegisters,
    enabled: bool,
    ops: Vec<WdtOp>,
}

impl View for Wdt {
    type V = WdtView;

    closed spec fn view(&self) -> WdtView {
        WdtView { registers: self.registers, enabled: self.enabled, ops: self.ops@ }
    }
}

impl Wdt {
    /// The watchdog whose register block holds `registers`; not enabled.
    pub fn new(registers: WdtRegisters) -> (r: Wdt)
        ensures
            r@ == (WdtView { registers, enabled: false, ops: Seq::empty() }),
    {
        Wdt { registers: registers, enabled: false, ops: Vec::new() }
    }

    /// The platform hands over the register values it read from the
    /// hardware; a later `stop` builds on the control value read.
    pub fn registers_read(&mut self, registers: WdtRegisters)
        ensures
            final(self)@ == (WdtView { registers, ..old(self)@ }),
    {
        self.registers = registers;
    }

    /// The register values last read or written.
    pub fn registers(&self) -> (r: WdtRegisters)
        ensures
            r == self@.registers,
    {
        self.registers
    }

    /// Whether the watchdog is running.
    pub fn is_enabled(&self) -> (r: bool)
        ensures
            r == self@.enabled,
    {
        self.enabled
    }

    /// Hands the platform the effects logged so far, oldest first.
    pub fn take_ops(&mut self) -> (r: Vec<WdtOp>)
        ensures
            r@ == old(self)@.ops,
            final(self)@ == (WdtView { ops: Seq::empty(), ..old(self)@ }),
    {
        let mut r = Vec::new();
        std::mem::swap(&mut r, &mut self.ops);
        r
    }

    fn write_cr(&mut self, value: u32)
        ensures
            final(self)@ == (WdtView {
                registers: WdtRegisters { cr: value, ..old(self)@.registers },
                ops: old(self)@.ops.push(WdtOp::WriteCr(value)),
                ..old(self)@
            }),
    {
        self.registers.cr = value;
        self.ops.push(WdtOp::WriteCr(value));
    }

    fn write_clr(&mut self, value: u32)
        ensures
            final(self)@ == (WdtView {
                registers: WdtRegisters { clr: value, ..old(self)@.registers },
                ops: old(self)@.ops.push(WdtOp::WriteClr(value)),
                ..old(self)@
            }),
    {
        self.registers.clr = value;
        self.ops.push(WdtOp::WriteClr(value));
    }

    /// Starts the watchdog.
    pub fn start(&mut self)
        ensures
            final(self)@ == after_start(old(self)@),
    {
        self.enabled = true;
        self.ops.push(WdtOp::EnableClock);
        let control: u32 = (1 << 16) |  // Clock enable
        (15 << 8) |  // Set PSEL to 15, 570 ms watchdog period
        (1 << 7) |  // Flash calibration done (set to default)
        (1 << 1) |  // Disable after reset
        (1 << 0);  // Enable
        assert(control == START_CONTROL) by (bit_vector)
            requires
                control == (1u32 << 16u32) | (15u32 << 8u32) | (1u32 << 7u32) | (1u32 << 1u32) | (1u32 << 0u32),
        ;
        // Need to write twice for it to work
        self.write_cr((KEY_FIRST << 24) | control);
        self.write_cr((KEY_SECOND << 24) | control);
        assert(self@.ops =~= after_start(old(self)@).ops);
    }

    /// Stops the watchdog: clears its enable bit, then turns its clock off.
    pub fn stop(&mut self)
        ensures
            final(self)@ == after_stop(old(self)@),
    {
        // Read the control register (its key field reads as zero) and
        // set enable bit (bit 0) to 0 to disable
        let control = (self.registers.cr & 0x00FF_FFFF) & !0x01;
        // Need to write twice for it to work
        self.write_cr((KEY_FIRST << 24) | control);
        self.write_cr((KEY_SECOND << 24) | control);
        self.ops.push(WdtOp::DisableClock);
        self.enabled = false;
        assert(self@.ops =~= after_stop(old(self)@).ops);
    }

    /// Restarts the watchdog's count.
    pub fn tickle(&mut self)
        ensures
            final(self)@ == after_tickle(old(self)@),
    {
        // Need to write the WDTCLR bit twice for it to work
        let clear_bit: u32 = 1;  // bit 0: WDTCLR
        self.write_clr((KEY_FIRST << 24) | clear_bit);
        self.write_clr((KEY_SECOND << 24) | clear_bit);
        assert(self@.ops =~= after_tickle(old(self)@).ops);
    }
}

impl Watchdog for Wdt {
    fn start(&mut self)
        ensures
            final(self)@ == after_start(old(self)@),
    {
        Wdt::start(self);
    }

    fn stop(&mut self)
        ensures
            final(self)@ == after_stop(old(self)@),
    {
        Wdt::stop(self);
    }

    fn tickle(&mut self)
        ensures
            final(self)@ == after_tickle(old(self)@),
    {
        Wdt::tickle(self);
    }
}

/// Starting the watchdog leaves it enabled with its clock on, and the
/// control register enabled, with clock enable and a period selector of 15.
/// Stopping it clears the enable bit and keeps the other control bits; it
/// leaves the watchdog disabled with its clock off.
pub proof fn lemma_start_stop(v: WdtView)
    ensures
        after_start(v).enabled,
        after_start(v).registers.cr & 1u32 == 1u32,
        (after_start(v).registers.cr >> 16u32) & 1u32 == 1u32,
        (after_start(v).registers.cr >> 8u32) & 0x1Fu32 == 15u32,
        !after_stop(v).enabled,
        after_stop(v).registers.cr & 1u32 == 0u32,
        after_stop(v).registers.cr & 0x00FF_FFFEu32 == v.registers.cr & 0x00FF_FFFEu32,
        after_stop(after_start(v)).ops.last() == WdtOp::DisableClock,
        after_stop(after_start(v)).registers.cr & 0x00FF_FFFFu32 == START_CONTROL & !1u32,
        after_stop(after_start(v)).ops.subrange(v.ops.len() + 3int, v.ops.len() + 6int) == seq![
            WdtOp::WriteCr(0x5501_0F82),
            WdtOp::WriteCr(0xAA01_0F82),
            WdtOp::DisableClock,
        ],
{
    let c = after_start(v).registers.cr;
    assert(c == (0xAAu32 << 24u32) | 0x0001_0F83u32);
    assert(c & 1u32 == 1u32 && (c >> 16u32) & 1u32 == 1u32 && (c >> 8u32) & 0x1Fu32 == 15u32) by (bit_vector)
        requires
            c == (0xAAu32 << 24u32) | 0x0001_0F83u32,
    ;
    let s = v.registers.cr;
    let t = after_stop(v).registers.cr;
    assert(t == (0xAAu32 << 24u32) | ((s & 0x00FF_FFFFu32) & !0x01u32));
    assert(t & 1u32 == 0u32 && t & 0x00FF_FFFEu32 == s & 0x00FF_FFFEu32) by (bit_vector)
        requires
            t == (0xAAu32 << 24u32) | ((s & 0x00FF_FFFFu32) & !0x01u32),
    ;
    let t2 = after_stop(after_start(v)).registers.cr;
    assert(t2 == (0xAAu32 << 24u32) | ((c & 0x00FF_FFFFu32) & !0x01u32));
    assert(t2 & 0x00FF_FFFFu32 == 0x0001_0F83u32 & !1u32) by (bit_vector)
        requires
            t2 == (0xAAu32 << 24u32) | ((c & 0x00FF_FFFFu32) & !0x01u32),
            c == (0xAAu32 << 24u32) | 0x0001_0F83u32,
    ;
    // the first write of stop carries the first key and nothing of the
    // key last written
    let f = (0x55u32 << 24u32) | ((c & 0x00FF_FFFFu32) & !0x01u32);
    assert(f == 0x5501_0F82u32) by (bit_vector)
        requires
            f == (0x55u32 << 24u32) | ((c & 0x00FF_FFFFu32) & !0x01u32),
            c == (0xAAu32 << 24u32) | 0x0001_0F83u32,
    ;
    assert(t2 == 0xAA01_0F82u32) by (bit_vector)
        requires
            t2 == (0xAAu32 << 24u32) | ((c & 0x00FF_FFFFu32) & !0x01u32),
            c == (0xAAu32 << 24u32) | 0x0001_0F83u32,
    ;
    let n = v.ops.len();
    assert(after_stop(after_start(v)).ops.subrange(n + 3int, n + 6int) =~= seq![
        WdtOp::WriteCr(0x5501_0F82),
        WdtOp::WriteCr(0xAA01_0F82),
        WdtOp::DisableClock,
    ]);
}

} // verus!
