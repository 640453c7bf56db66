use tock::hil::watchdog::Watchdog;
use tock::sam4l::aesa::{Aes_dev_inst, AesaRegisters};
use tock::sam4l::chip::{ChipOp, NvicIdx, Peripheral, Sam4l, IQ_SIZE};
use tock::sam4l::wdt::{Wdt, WdtOp, WdtRegisters, START_CONTROL};

fn aes_registers() -> AesaRegisters {
    AesaRegisters {
        ctrl: 0,
        mode: 0xFFFF_FFFF,
        databufptr: 0,
        sr: 0,
        ier: 0,
        idr: 0,
        imr: 0,
        key0: 1,
        key1: 2,
        key2: 3,
        key3: 4,
        key4: 5,
        key5: 6,
        key6: 7,
        key7: 8,
        initvect0: 0,
        initvect1: 0,
        initvect2: 0,
        initvect3: 0,
        idata: [0; 4],
        odata: [0; 4],
        drngseed: [0; 34],
        parameter: 0,
        version: 0x102,
    }
}

#[test]
fn aes_default_mode_register() {
    let mut aes = Aes_dev_inst::new(aes_registers());
    aes.aes_get_config_defaults();
    aes.aes_set_config();
    let r = aes.registers();
    assert_eq!(r.mode, 0x000F_0001);
    assert_eq!(r.key0, 1);
    assert_eq!(r.version, 0x102);
}

fn wdt_registers() -> WdtRegisters {
    WdtRegisters { cr: 0, clr: 0, sr: 0, ier: 0, idr: 0, imr: 0, isr: 0, icr: 0 }
}

#[test]
fn watchdog_start_stop_tickle() {
    let mut w = Wdt::new(wdt_registers());
    assert!(!w.is_enabled());
    assert_eq!(START_CONTROL, (1 << 16) | (15 << 8) | (1 << 7) | (1 << 1) | 1);
    Watchdog::start(&mut w);
    assert!(w.is_enabled());
    assert_eq!(
        w.take_ops(),
        vec![WdtOp::EnableClock, WdtOp::WriteCr(0x5501_0F83), WdtOp::WriteCr(0xAA01_0F83)]
    );
    Watchdog::tickle(&mut w);
    assert_eq!(w.take_ops(), vec![WdtOp::WriteClr(0x5500_0001), WdtOp::WriteClr(0xAA00_0001)]);
    Watchdog::stop(&mut w);
    assert!(!w.is_enabled());
    assert_eq!(
        w.take_ops(),
        vec![WdtOp::WriteCr(0x5501_0F82), WdtOp::WriteCr(0xAA01_0F82), WdtOp::DisableClock]
    );
    assert_eq!(w.registers().cr & 1, 0);
}

#[test]
fn chip_dma_wiring() {
    let mut chip = Sam4l::new();
    let ops = chip.take_ops();
    assert_eq!(ops.len(), 21);
    assert_eq!(ops[0], ChipOp::SetDma(Peripheral::Usart(0), 0, Some(1)));
    assert_eq!(ops[1], ChipOp::DmaClient(0, Peripheral::Usart(0)));
    assert_eq!(ops[2], ChipOp::DmaClient(1, Peripheral::Usart(0)));
    assert_eq!(ops[12], ChipOp::SetDma(Peripheral::Spi, 8, Some(9)));
    assert_eq!(ops[15], ChipOp::SetDma(Peripheral::I2c(0), 10, None));
    assert_eq!(ops[20], ChipOp::DmaClient(12, Peripheral::I2c(2)));
}

#[test]
fn chip_services_queue_in_order() {
    let mut chip = Sam4l::new();
    chip.take_ops();
    assert!(!chip.has_pending_interrupts());
    for i in [NvicIdx::ASTALARM, NvicIdx::WDT, NvicIdx::TWIS1, NvicIdx::GPIO5] {
        assert!(chip.queue_interrupt(i));
    }
    assert!(chip.has_pending_interrupts());
    chip.service_pending_interrupts();
    assert!(!chip.has_pending_interrupts());
    assert_eq!(
        chip.take_ops(),
        vec![
            ChipOp::HandleInterrupt(Peripheral::Ast),
            ChipOp::NvicEnable(NvicIdx::ASTALARM),
            ChipOp::NvicEnable(NvicIdx::WDT),
            ChipOp::HandleSlaveInterrupt(1),
            ChipOp::NvicEnable(NvicIdx::TWIS1),
            ChipOp::HandleInterrupt(Peripheral::GpioPort(1)),
            ChipOp::NvicEnable(NvicIdx::GPIO5),
        ]
    );
    assert_eq!(Sam4l::handler(NvicIdx::PDCA12), Some(ChipOp::HandleInterrupt(Peripheral::Dma(12))));
    assert_eq!(Sam4l::handler(NvicIdx::TRNG), Some(ChipOp::HandleInterrupt(Peripheral::Trng)));
    assert_eq!(Sam4l::handler(NvicIdx::AESA), None);
}

#[test]
fn chip_queue_is_bounded() {
    let mut chip = Sam4l::new();
    for _ in 0..IQ_SIZE - 1 {
        assert!(chip.queue_interrupt(NvicIdx::TRNG));
    }
    assert!(!chip.queue_interrupt(NvicIdx::TRNG));
    chip.take_ops();
    chip.service_pending_interrupts();
    assert_eq!(chip.take_ops().len(), 2 * (IQ_SIZE - 1));
    assert!(chip.queue_interrupt(NvicIdx::TRNG));
}

#[test]
fn watchdog_stop_builds_on_register_read() {
    let mut w = Wdt::new(wdt_registers());
    let mut read = wdt_registers();
    read.cr = 0x0001_0F83;
    w.registers_read(read);
    Watchdog::stop(&mut w);
    assert_eq!(
        w.take_ops(),
        vec![WdtOp::WriteCr(0x5501_0F82), WdtOp::WriteCr(0xAA01_0F82), WdtOp::DisableClock]
    );
}
