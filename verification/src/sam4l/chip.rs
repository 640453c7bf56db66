//! The SAM4L chip: DMA channel assignment at start-up and dispatch of the
//! interrupts queued by the interrupt handlers to the peripheral drivers.
use vstd::prelude::*;

verus! {

/// Number of slots of the ring buffer into which interrupt handlers put the
/// interrupts to be serviced.  One slot tells a full buffer from an empty
/// one, so it holds at most `IQ_SIZE - 1` interrupts.
pub const IQ_SIZE: usize = 100;

/// Interrupt lines of the NVIC.
#[allow(non_camel_case_types)]
#[derive(Clone, Copy, PartialEq, Eq, Structural, Debug)]
pub enum NvicIdx {
    HFLASHC,
    PDCA0,
    PDCA1,
    PDCA2,
    PDCA3,
    PDCA4,
    PDCA5,
    PDCA6,
    PDCA7,
    PDCA8,
    PDCA9,
    PDCA10,
    PDCA11,
    PDCA12,
    PDCA13,
    PDCA14,
    PDCA15,
    PM,
    SCIF,
    GPIO0,
    GPIO1,
    GPIO2,
    GPIO3,
    GPIO4,
    GPIO5,
    GPIO6,
    GPIO7,
    GPIO8,
    GPIO9,
    GPIO10,
    GPIO11,
    ASTALARM,
    WDT,
    SPI,
    TWIM0,
    TWIS0,
    TWIM1,
    TWIS1,
    USART0,
    USART1,
    USART2,
    USART3,
    ADCIFE,
    DACC,
    TRNG,
    AESA,
    TWIM2,
    TWIM3,
}

/// A peripheral driver of the chip.
#[derive(Clone, Copy, PartialEq, Eq, Structural, Debug)]
pub enum Peripheral {
    Ast,
    Usart(u8),
    Spi,
    /// A DMA channel.
    Dma(u8),
    /// A GPIO port: 0 is PA, 1 is PB, 2 is PC.
    GpioPort(u8),
    I2c(u8),
    FlashController,
    Adc,
    Trng,
}

/// An effect that the chip asks of its peripheral drivers.
#[derive(Clone, Copy, PartialEq, Eq, Structural, Debug)]
pub enum ChipOp {
    /// Give a peripheral its DMA channel(s), receive first.
    SetDma(Peripheral, u8, Option<u8>),
    /// Make a peripheral the client of a DMA channel.
    DmaClient(u8, Peripheral),
    /// Run the interrupt handler of a peripheral.
    HandleInterrupt(Peripheral),
    /// Run the slave interrupt handler of an I2C peripheral.
    HandleSlaveInterrupt(u8),
    /// Re-enable an interrupt line.
    NvicEnable(NvicIdx),
}

/// The handler that an interrupt line is serviced by, if any.
pub open spec fn interrupt_handler(interrupt: NvicIdx) -> Option<ChipOp> {
    match interrupt {
        NvicIdx::ASTALARM => Some(ChipOp::HandleInterrupt(Peripheral::Ast)),
        NvicIdx::USART0 => Some(ChipOp::HandleInterrupt(Peripheral::Usart(0))),
        NvicIdx::USART1 => Some(ChipOp::HandleInterrupt(Peripheral::Usart(1))),
        NvicIdx::USART2 => Some(ChipOp::HandleInterrupt(Peripheral::Usart(2))),
        NvicIdx::USART3 => Some(ChipOp::HandleInterrupt(Peripheral::Usart(3))),
        NvicIdx::PDCA0 => Some(ChipOp::HandleInterrupt(Peripheral::Dma(0))),
        NvicIdx::PDCA1 => Some(ChipOp::HandleInterrupt(Peripheral::Dma(1))),
        NvicIdx::PDCA2 => Some(ChipOp::HandleInterrupt(Peripheral::Dma(2))),
        NvicIdx::PDCA3 => Some(ChipOp::HandleInterrupt(Peripheral::Dma(3))),
        NvicIdx::PDCA4 => Some(ChipOp::HandleInterrupt(Peripheral::Dma(4))),
        NvicIdx::PDCA5 => Some(ChipOp::HandleInterrupt(Peripheral::Dma(5))),
        NvicIdx::PDCA6 => Some(ChipOp::HandleInterrupt(Peripheral::Dma(6))),
        NvicIdx::PDCA7 => Some(ChipOp::HandleInterrupt(Peripheral::Dma(7))),
        NvicIdx::PDCA8 => Some(ChipOp::HandleInterrupt(Peripheral::Dma(8))),
        NvicIdx::PDCA9 => Some(ChipOp::HandleInterrupt(Peripheral::Dma(9))),
        NvicIdx::PDCA10 => Some(ChipOp::HandleInterrupt(Peripheral::Dma(10))),
        NvicIdx::PDCA11 => Some(ChipOp::HandleInterrupt(Peripheral::Dma(11))),
        NvicIdx::PDCA12 => Some(ChipOp::HandleInterrupt(Peripheral::Dma(12))),
        NvicIdx::PDCA13 => Some(ChipOp::HandleInterrupt(Peripheral::Dma(13))),
        NvicIdx::PDCA14 => Some(ChipOp::HandleInterrupt(Peripheral::Dma(14))),
        NvicIdx::PDCA15 => Some(ChipOp::HandleInterrupt(Peripheral::Dma(15))),
        NvicIdx::GPIO0 => Some(ChipOp::HandleInterrupt(Peripheral::GpioPort(0))),
        NvicIdx::GPIO1 => Some(ChipOp::HandleInterrupt(Peripheral::GpioPort(0))),
        NvicIdx::GPIO2 => Some(ChipOp::HandleInterrupt(Peripheral::GpioPort(0))),
        NvicIdx::GPIO3 => Some(ChipOp::HandleInterrupt(Peripheral::GpioPort(0))),
        NvicIdx::GPIO4 => Some(ChipOp::HandleInterrupt(Peripheral::GpioPort(1))),
        NvicIdx::GPIO5 => Some(ChipOp::HandleInterrupt(Peripheral::GpioPort(1))),
        NvicIdx::GPIO6 => Some(ChipOp::HandleInterrupt(Peripheral::GpioPort(1))),
        NvicIdx::GPIO7 => Some(ChipOp::HandleInterrupt(Peripheral::GpioPort(1))),
        NvicIdx::GPIO8 => Some(ChipOp::HandleInterrupt(Peripheral::GpioPort(2))),
        NvicIdx::GPIO9 => Some(ChipOp::HandleInterrupt(Peripheral::GpioPort(2))),
        NvicIdx::GPIO10 => Some(ChipOp::HandleInterrupt(Peripheral::GpioPort(2))),
        NvicIdx::GPIO11 => Some(ChipOp::HandleInterrupt(Peripheral::GpioPort(2))),
        NvicIdx::TWIM0 => Some(ChipOp::HandleInterrupt(Peripheral::I2c(0))),
        NvicIdx::TWIM1 => Some(ChipOp::HandleInterrupt(Peripheral::I2c(1))),
        NvicIdx::TWIM2 => Some(ChipOp::HandleInterrupt(Peripheral::I2c(2))),
        NvicIdx::TWIM3 => Some(ChipOp::HandleInterrupt(Peripheral::I2c(3))),
        NvicIdx::TWIS0 => Some(ChipOp::HandleSlaveInterrupt(0)),
        NvicIdx::TWIS1 => Some(ChipOp::HandleSlaveInterrupt(1)),
        NvicIdx::HFLASHC => Some(ChipOp::HandleInterrupt(Peripheral::FlashController)),
        NvicIdx::ADCIFE => Some(ChipOp::HandleInterrupt(Peripheral::Adc)),
        NvicIdx::TRNG => Some(ChipOp::HandleInterrupt(Peripheral::Trng)),
        _ => None,
    }
}

/// Servicing one interrupt: its handler (if it has one), then re-enabling
/// its line.
pub open spec fn interrupt_ops(interrupt: NvicIdx) -> Seq<ChipOp> {
    match interrupt_handler(interrupt) {
        Some(h) => seq![h, ChipOp::NvicEnable(interrupt)],
        None => seq![ChipOp::NvicEnable(interrupt)],
    }
}

/// Servicing the queued interrupts in order.
pub open spec fn service_ops(queue: Seq<NvicIdx>) -> Seq<ChipOp>
    decreases queue.len(),
{
    if queue.len() == 0 {
        Seq::empty()
    } else {
        interrupt_ops(queue[0]) + service_ops(queue.drop_first())
    }
}

/// A peripheral that uses a pair of DMA channels, receive and transmit,
/// and is the client of both.
pub open spec fn dma_pair(p: Peripheral, rx: u8, tx: u8) -> Seq<ChipOp> {
    seq![ChipOp::SetDma(p, rx, Some(tx)), ChipOp::DmaClient(rx, p), ChipOp::DmaClient(tx, p)]
}

/// A peripheral that uses one DMA channel and is its client.
pub open spec fn dma_single(p: Peripheral, ch: u8) -> Seq<ChipOp> {
    seq![ChipOp::SetDma(p, ch, None), ChipOp::DmaClient(ch, p)]
}

/// The DMA channels given at start-up: 0-7 to the USARTs (two each), 8-9 to
/// SPI, 10-12 to I2C 0-2.
pub open spec fn dma_wiring() -> Seq<ChipOp> {
    dma_pair(Peripheral::Usart(0), 0, 1) + dma_pair(Peripheral::Usart(1), 2, 3) + dma_pair(Peripheral::Usart(2), 4, 5)
        + dma_pair(Peripheral::Usart(3), 6, 7) + dma_pair(Peripheral::Spi, 8, 9) + dma_single(Peripheral::I2c(0), 10)
        + dma_single(Peripheral::I2c(1), 11) + dma_single(Peripheral::I2c(2), 12)
}

/// The abstract state of the chip.
pub ghost struct Sam4lView {
    /// The interrupts waiting to be serviced, oldest first.
    pub interrupt_queue: Seq<NvicIdx>,
    /// The effects not yet taken by the platform, oldest first.
    pub ops: Seq<ChipOp>,
}

impl Sam4lView {
    /// The queue holds no more than its ring buffer can.
    pub open spec fn wf(self) -> bool {
        self.interrupt_queue.len() < IQ_SIZE
    }
}

/// The chip.
pub struct Sam4l {
    interrupt_queue: Vec<NvicIdx>,
    ops: Vec<ChipOp>,
}

impl View for Sam4l {
    type V = Sam4lView;

    closed spec fn view(&self) -> Sam4lView {
        Sam4lView { interrupt_queue: self.interrupt_queue@, ops: self.ops@ }
    }
}

impl Sam4l {
    fn assign_dma_pair(&mut self, p: Peripheral, rx: u8, tx: u8)
        ensures
            final(self)@ == (Sam4lView { ops: old(self)@.ops + dma_pair(p, rx, tx), ..old(self)@ }),
    {
        self.ops.push(ChipOp::SetDma(p, rx, Some(tx)));
        self.ops.push(ChipOp::DmaClient(rx, p));
        self.ops.push(ChipOp::DmaClient(tx, p));
        assert(self@.ops =~= old(self)@.ops + dma_pair(p, rx, tx));
    }

    fn assign_dma_single(&mut self, p: Peripheral, ch: u8)
        ensures
            final(self)@ == (Sam4lView { ops: old(self)@.ops + dma_single(p, ch), ..old(self)@ }),
    {
        self.ops.push(ChipOp::SetDma(p, ch, None));
        self.ops.push(ChipOp::DmaClient(ch, p));
        assert(self@.ops =~= old(self)@.ops + dma_single(p, ch));
    }

    /// The chip, with an empty interrupt queue and the DMA channels assigned
    /// to the peripherals.
    pub fn new() -> (r: Sam4l)
        ensures
            r@ == (Sam4lView { interrupt_queue: Seq::empty(), ops: dma_wiring() }),
            r@.wf(),
    {
        let mut r = Sam4l { interrupt_queue: Vec::new(), ops: Vec::new() };
        r.assign_dma_pair(Peripheral::Usart(0), 0, 1);
        r.assign_dma_pair(Peripheral::Usart(1), 2, 3);
        r.assign_dma_pair(Peripheral::Usart(2), 4, 5);
        r.assign_dma_pair(Peripheral::Usart(3), 6, 7);
        r.assign_dma_pair(Peripheral::Spi, 8, 9);
        r.assign_dma_single(Peripheral::I2c(0), 10);
        r.assign_dma_single(Peripheral::I2c(1), 11);
        r.assign_dma_single(Peripheral::I2c(2), 12);
        assert(r@.ops =~= dma_wiring());
        assert(r@.interrupt_queue =~= Seq::empty());
        r
    }

    /// Hands the platform the effects logged so far, oldest first.
    pub fn take_ops(&mut self) -> (r: Vec<ChipOp>)
        ensures
            r@ == old(self)@.ops,
            final(self)@ == (Sam4lView { ops: Seq::empty(), ..old(self)@ }),
    {
        let mut r = Vec::new();
        std::mem::swap(&mut r, &mut self.ops);
        r
    }

    /// The handler of an interrupt line, if it has one.
    pub fn handler(interrupt: NvicIdx) -> (r: Option<ChipOp>)
        ensures
            r == interrupt_handler(interrupt),
    {
        match interrupt {
            NvicIdx::ASTALARM => Some(ChipOp::HandleInterrupt(Peripheral::Ast)),
            NvicIdx::USART0 => Some(ChipOp::HandleInterrupt(Peripheral::Usart(0))),
            NvicIdx::USART1 => Some(ChipOp::HandleInterrupt(Peripheral::Usart(1))),
            NvicIdx::USART2 => Some(ChipOp::HandleInterrupt(Peripheral::Usart(2))),
            NvicIdx::USART3 => Some(ChipOp::HandleInterrupt(Peripheral::Usart(3))),
            NvicIdx::PDCA0 => Some(ChipOp::HandleInterrupt(Peripheral::Dma(0))),
            NvicIdx::PDCA1 => Some(ChipOp::HandleInterrupt(Peripheral::Dma(1))),
            NvicIdx::PDCA2 => Some(ChipOp::HandleInterrupt(Peripheral::Dma(2))),
            NvicIdx::PDCA3 => Some(ChipOp::HandleInterrupt(Peripheral::Dma(3))),
            NvicIdx::PDCA4 => Some(ChipOp::HandleInterrupt(Peripheral::Dma(4))),
            NvicIdx::PDCA5 => Some(ChipOp::HandleInterrupt(Peripheral::Dma(5))),
            NvicIdx::PDCA6 => Some(ChipOp::HandleInterrupt(Peripheral::Dma(6))),
            NvicIdx::PDCA7 => Some(ChipOp::HandleInterrupt(Peripheral::Dma(7))),
            NvicIdx::PDCA8 => Some(ChipOp::HandleInterrupt(Peripheral::Dma(8))),
            NvicIdx::PDCA9 => Some(ChipOp::HandleInterrupt(Peripheral::Dma(9))),
            NvicIdx::PDCA10 => Some(ChipOp::HandleInterrupt(Peripheral::Dma(10))),
            NvicIdx::PDCA11 => Some(ChipOp::HandleInterrupt(Peripheral::Dma(11))),
            NvicIdx::PDCA12 => Some(ChipOp::HandleInterrupt(Peripheral::Dma(12))),
            NvicIdx::PDCA13 => Some(ChipOp::HandleInterrupt(Peripheral::Dma(13))),
            NvicIdx::PDCA14 => Some(ChipOp::HandleInterrupt(Peripheral::Dma(14))),
            NvicIdx::PDCA15 => Some(ChipOp::HandleInterrupt(Peripheral::Dma(15))),
            NvicIdx::GPIO0 => Some(ChipOp::HandleInterrupt(Peripheral::GpioPort(0))),
            NvicIdx::GPIO1 => Some(ChipOp::HandleInterrupt(Peripheral::GpioPort(0))),
            NvicIdx::GPIO2 => Some(ChipOp::HandleInterrupt(Peripheral::GpioPort(0))),
            NvicIdx::GPIO3 => Some(ChipOp::HandleInterrupt(Peripheral::GpioPort(0))),
            NvicIdx::GPIO4 => Some(ChipOp::HandleInterrupt(Peripheral::GpioPort(1))),
            NvicIdx::GPIO5 => Some(ChipOp::HandleInterrupt(Peripheral::GpioPort(1))),
            NvicIdx::GPIO6 => Some(ChipOp::HandleInterrupt(Peripheral::GpioPort(1))),
            NvicIdx::GPIO7 => Some(ChipOp::HandleInterrupt(Peripheral::GpioPort(1))),
            NvicIdx::GPIO8 => Some(ChipOp::HandleInterrupt(Peripheral::GpioPort(2))),
            NvicIdx::GPIO9 => Some(ChipOp::HandleInterrupt(Peripheral::GpioPort(2))),
            NvicIdx::GPIO10 => Some(ChipOp::HandleInterrupt(Peripheral::GpioPort(2))),
            NvicIdx::GPIO11 => Some(ChipOp::HandleInterrupt(Peripheral::GpioPort(2))),
            NvicIdx::TWIM0 => Some(ChipOp::HandleInterrupt(Peripheral::I2c(0))),
            NvicIdx::TWIM1 => Some(ChipOp::HandleInterrupt(Peripheral::I2c(1))),
            NvicIdx::TWIM2 => Some(ChipOp::HandleInterrupt(Peripheral::I2c(2))),
            NvicIdx::TWIM3 => Some(ChipOp::HandleInterrupt(Peripheral::I2c(3))),
            NvicIdx::TWIS0 => Some(ChipOp::HandleSlaveInterrupt(0)),
            NvicIdx::TWIS1 => Some(ChipOp::HandleSlaveInterrupt(1)),
            NvicIdx::HFLASHC => Some(ChipOp::HandleInterrupt(Peripheral::FlashController)),
            NvicIdx::ADCIFE => Some(ChipOp::HandleInterrupt(Peripheral::Adc)),
            NvicIdx::TRNG => Some(ChipOp::HandleInterrupt(Peripheral::Trng)),
            _ => None,
        }
    }

    /// An interrupt handler queues `interrupt` to be serviced; it is
    /// refused (false) when the ring buffer is full.
    pub fn queue_interrupt(&mut self, interrupt: NvicIdx) -> (r: bool)
        requires
            old(self)@.wf(),
        ensures
            r == (old(self)@.interrupt_queue.len() < IQ_SIZE - 1),
            r ==> final(self)@ == (Sam4lView {
                interrupt_queue: old(self)@.interrupt_queue.push(interrupt),
                ..old(self)@
            }),
            !r ==> final(self)@ == old(self)@,
            final(self)@.wf(),
    {
        if self.interrupt_queue.len() < IQ_SIZE - 1 {
            self.interrupt_queue.push(interrupt);
            true
        } else {
            false
        }
    }

    /// Services the queued interrupts, oldest first: each is handed to its
    /// peripheral's handler and its line re-enabled.  The queue is left
    /// empty; the handlers run when the platform performs the logged
    /// effects, so an interrupt queued meanwhile is serviced by the next
    /// call.
    pub fn service_pending_interrupts(&mut self)
        ensures
            final(self)@ == (Sam4lView {
                interrupt_queue: Seq::empty(),
                ops: old(self)@.ops + service_ops(old(self)@.interrupt_queue),
            }),
    {
        while self.interrupt_queue.len() > 0
            invariant
                old(self)@.ops + service_ops(old(self)@.interrupt_queue) == self@.ops + service_ops(
                    self@.interrupt_queue,
                ),
            decreases self.interrupt_queue.len(),
        {
            let ghost q = self.interrupt_queue@;
            let ghost before = self.ops@;
            let interrupt = self.interrupt_queue.remove(0);
            match Sam4l::handler(interrupt) {
                Some(h) => self.ops.push(h),
                None => {},
            }
            self.ops.push(ChipOp::NvicEnable(interrupt));
            assert(q.drop_first() =~= self.interrupt_queue@);
            assert(self.ops@ =~= before + interrupt_ops(interrupt));
            assert(self@.ops + service_ops(self@.interrupt_queue) =~= old(self)@.ops + service_ops(
                old(self)@.interrupt_queue,
            ));
        }
        assert(service_ops(self@.interrupt_queue) =~= Seq::<ChipOp>::empty());
        assert(self@.ops =~= old(self)@.ops + service_ops(old(self)@.interrupt_queue));
        assert(self@.interrupt_queue =~= Seq::empty());
    }

    /// Whether interrupts are waiting in the queue.
    pub fn has_pending_interrupts(&self) -> (r: bool)
        ensures
            r == (self@.interrupt_queue.len() > 0),
    {
        self.interrupt_queue.len() > 0
    }
}

} // verus!
