use tock::callback::{AppId, Callback, FunctionCall, Upcall};
use tock::capsules::dac::{conversion_result, DAC};
use tock::capsules::instrumented_takecell::InstrumentedTakeCell;
use tock::driver::Driver;
use tock::hil::dac::{DacRequest, DacSingle};
use tock::hil::gpio::InterruptMode;
use tock::hil::ninedof::NineDof;
use tock::returncode::ReturnCode;

#[test]
fn return_code_values() {
    assert_eq!(ReturnCode::SUCCESS.value(), 0);
    assert_eq!(ReturnCode::FAIL.value(), -1);
    assert_eq!(ReturnCode::EINVAL.value(), -6);
    assert_eq!(ReturnCode::ENOMEM.value(), -9);
    assert_eq!(ReturnCode::ENOACK.value(), -13);
}

#[test]
fn interrupt_mode_numbers() {
    assert_eq!(InterruptMode::RisingEdge.number(), 0);
    assert_eq!(InterruptMode::FallingEdge.number(), 1);
    assert_eq!(InterruptMode::EitherEdge.number(), 2);
}

#[test]
fn app_id_and_callbacks() {
    let a = AppId::new(4);
    assert_eq!(a.idx(), 4);
    assert_eq!(a, AppId::new(4));
    assert_ne!(a, AppId::new(5));
    let cb = Callback::new(a, 9, 0x1000, None);
    assert_eq!(cb.app_id(), a);
    assert_eq!(
        cb.schedule(1, 2, 3),
        Upcall::Process { app_id: a, call: FunctionCall { r0: 1, r1: 2, r2: 3, r3: 9, pc: 0x1000 } }
    );
    let fake = Callback::new(a, 9, 0x1000, Some(77));
    assert_eq!(fake.schedule(1, 2, 3), Upcall::Fake { handle: 77, r0: 1, r1: 2, r2: 3 });
}

#[test]
fn take_cell_take_twice() {
    let mut cell = InstrumentedTakeCell::new(1234);
    assert!(cell.is_some());
    assert_eq!(cell.take(), Some(1234));
    assert_eq!(cell.take(), None);
    assert!(cell.is_none());
}

#[test]
fn take_cell_map_keeps_value() {
    let mut cell = InstrumentedTakeCell::new(1234);
    let r = cell.map(|value: &mut i32| {
        *value += 1;
        *value * 2
    });
    assert_eq!(r, Some(2470));
    assert_eq!(cell.take(), Some(1235));
    let mut empty: InstrumentedTakeCell<i32> = InstrumentedTakeCell::empty();
    assert_eq!(empty.map(|v: &mut i32| *v), None);
    assert_eq!(empty.map_or(7, |v: &mut i32| *v), 7);
}

#[test]
fn take_cell_replace_and_put() {
    let mut cell = InstrumentedTakeCell::empty();
    assert_eq!(cell.replace(1), None);
    assert_eq!(cell.replace(2), Some(1));
    cell.put(None);
    assert!(cell.is_none());
    cell.put(Some(5));
    assert_eq!(cell.map_or(0, |v: &mut i32| *v + 1), 6);
    assert_eq!(cell.take(), Some(5));
}

#[test]
fn take_cell_modify_or_replace() {
    let mut cell = InstrumentedTakeCell::empty();
    cell.modify_or_replace(|v: &mut u8| *v += 1, || 10u8);
    assert_eq!(cell.replace(20), Some(10));
    cell.modify_or_replace(|v: &mut u8| *v += 1, || 10u8);
    assert_eq!(cell.take(), Some(21));
}

#[test]
fn take_cell_instrumented_trace() {
    let mut trace = Vec::new();
    let mut cell = InstrumentedTakeCell::new(3u32);
    assert_eq!(cell.instrumented_map(|v: &mut u32| { *v *= 3; *v }, &mut trace), Some(9));
    assert_eq!(trace, vec![false, true, false, true, false, true, false, true, false, true]);
    assert_eq!(cell.take(), Some(9));
    let mut trace = Vec::new();
    assert_eq!(cell.instrumented_map(|v: &mut u32| *v, &mut trace), None);
    assert_eq!(trace, vec![false, true, false, true]);
}

struct FakeDac {
    enabled: u32,
    accept: bool,
    last: Option<u16>,
    requests: u32,
}

impl DacSingle for FakeDac {
    // This converter counts requests, remembers the last value it took and
    // answers enable with true, a conversion with its `accept` flag.
    fn dac_step(&self, request: DacRequest, new: Self, r: bool) -> bool {
        new.requests == self.requests + 1
            && new.accept == self.accept
            && match request {
                DacRequest::Enable => r && new.enabled == self.enabled + 1 && new.last == self.last,
                DacRequest::Convert(d) => {
                    r == self.accept
                        && new.enabled == self.enabled
                        && new.last == if self.accept { Some(d) } else { self.last }
                }
            }
    }

    fn enable(&mut self) -> bool {
        self.enabled += 1;
        self.requests += 1;
        true
    }

    fn set(&mut self, data: u16) -> bool {
        self.requests += 1;
        if self.accept {
            self.last = Some(data);
        }
        self.accept
    }
}

fn fake(accept: bool) -> FakeDac {
    FakeDac { enabled: 0, accept, last: None, requests: 0 }
}

#[test]
fn dac_commands() {
    let mut dac = DAC::new(fake(true));
    let app = AppId::new(0);
    assert_eq!(dac.command(0, 0, app), 0);
    assert_eq!(dac.device().requests, 0);
    assert_eq!(dac.command(1, 0, app), 0);
    assert_eq!(dac.device().enabled, 1);
    assert_eq!(dac.device().requests, 1);
    assert_eq!(dac.command(2, 0x1_0ABC, app), 0);
    assert_eq!(dac.device().last, Some(0x0ABC));
    assert_eq!(dac.device().requests, 2);
    assert_eq!(dac.command(3, 0, app), -1);
    assert_eq!(dac.subscribe(0, Callback::new(app, 0, 1, None)), -1);
    assert_eq!(dac.device().requests, 2);
    let before = fake(true);
    let mut after = fake(true);
    assert!(after.set(5));
    assert!(before.dac_step(DacRequest::Convert(5), after, true));
    let mut dac2 = DAC::new(fake(false));
    assert_eq!(dac2.command(2, 5, app), -1);
    assert_eq!(dac2.device().last, None);
    assert_eq!(conversion_result(true), 0);
    assert_eq!(conversion_result(false), -1);
}

struct NoSensor;

impl NineDof for NoSensor {
    fn set_client(&self, _client: &'static dyn tock::hil::ninedof::NineDofClient) {}
}

#[test]
fn ninedof_defaults_fail() {
    let s = NoSensor;
    assert_eq!(s.read_accelerometer(), ReturnCode::FAIL);
    assert_eq!(s.read_magnetometer(), ReturnCode::FAIL);
}
