use tock::callback::{AppId, Callback, FunctionCall, Upcall};
use tock::capsules::pca9544a::{ControlField, PcaOp, PCA9544A};
use tock::driver::Driver;
use tock::hil::i2c::{Error, I2cOp};
use tock::returncode::ReturnCode;

fn upcall(r0: usize, r1: usize) -> PcaOp {
    PcaOp::Upcall(Upcall::Process {
        app_id: AppId::new(1),
        call: FunctionCall { r0, r1, r2: 0, r3: 7, pc: 0x4000 },
    })
}

#[test]
fn channel_zero() {
    let mut p = PCA9544A::new(vec![9; 5]);
    assert_eq!(p.select_channels(0x01), ReturnCode::SUCCESS);
    assert_eq!(p.take_ops(), vec![PcaOp::I2c(I2cOp::Enable), PcaOp::I2c(I2cOp::Write(vec![0, 4, 9, 9, 9], 2))]);
}

#[test]
fn all_channels() {
    let mut p = PCA9544A::new(vec![9; 5]);
    assert_eq!(p.select_channels(0x0F), ReturnCode::SUCCESS);
    assert_eq!(p.take_ops(), vec![PcaOp::I2c(I2cOp::Enable), PcaOp::I2c(I2cOp::Write(vec![0, 4, 5, 6, 7], 5))]);
}

#[test]
fn no_channels() {
    let mut p = PCA9544A::new(vec![9; 5]);
    assert_eq!(p.select_channels(0), ReturnCode::SUCCESS);
    assert_eq!(p.take_ops(), vec![PcaOp::I2c(I2cOp::Enable), PcaOp::I2c(I2cOp::Write(vec![0, 9, 9, 9, 9], 1))]);
}

#[test]
fn some_channels_in_order_upper_bits_ignored() {
    let mut p = PCA9544A::new(vec![9; 5]);
    assert_eq!(p.select_channels(0xFA), ReturnCode::SUCCESS);
    assert_eq!(p.take_ops(), vec![PcaOp::I2c(I2cOp::Enable), PcaOp::I2c(I2cOp::Write(vec![0, 5, 7, 9, 9], 3))]);
}

#[test]
fn busy_means_nomem() {
    let mut p = PCA9544A::new(vec![0; 5]);
    assert_eq!(p.read_interrupts(), ReturnCode::SUCCESS);
    assert_eq!(p.select_channels(1), ReturnCode::ENOMEM);
    assert_eq!(p.read_selected_channels(), ReturnCode::ENOMEM);
    assert_eq!(p.command(2, 0, AppId::new(0)), 9);
    assert_eq!(p.take_ops(), vec![PcaOp::I2c(I2cOp::Enable), PcaOp::I2c(I2cOp::Read(vec![0; 5], 1))]);
}

#[test]
fn read_fields_report_to_callback() {
    let mut p = PCA9544A::new(vec![0; 5]);
    assert_eq!(p.subscribe(0, Callback::new(AppId::new(1), 7, 0x4000, None)), 0);
    assert_eq!(p.read_control(ControlField::InterruptMask), ReturnCode::SUCCESS);
    p.take_ops();
    p.command_complete(vec![0xA3, 0, 0, 0, 0], Error::CommandComplete);
    assert_eq!(p.take_ops(), vec![upcall(1, 0x0A), PcaOp::I2c(I2cOp::Disable)]);
    assert_eq!(p.read_selected_channels(), ReturnCode::SUCCESS);
    p.take_ops();
    p.command_complete(vec![0xA3, 0, 0, 0, 0], Error::CommandComplete);
    assert_eq!(p.take_ops(), vec![upcall(2, 0x03), PcaOp::I2c(I2cOp::Disable)]);
    assert_eq!(p.select_channels(2), ReturnCode::SUCCESS);
    p.take_ops();
    p.command_complete(vec![0, 5, 0, 0, 0], Error::CommandComplete);
    assert_eq!(p.take_ops(), vec![upcall(0, 0), PcaOp::I2c(I2cOp::Disable)]);
    // idle: a completion does nothing
    p.command_complete(vec![0; 5], Error::CommandComplete);
    assert_eq!(p.take_ops(), vec![]);
}

#[test]
fn commands() {
    let mut p = PCA9544A::new(vec![0; 5]);
    assert_eq!(p.command(0, 0, AppId::new(0)), 0);
    assert_eq!(p.command(5, 0, AppId::new(0)), -1);
    assert_eq!(p.subscribe(1, Callback::new(AppId::new(0), 0, 1, None)), -1);
    assert_eq!(p.command(1, 0x103, AppId::new(0)), 0);
    assert_eq!(p.take_ops(), vec![PcaOp::I2c(I2cOp::Enable), PcaOp::I2c(I2cOp::Write(vec![0, 4, 5, 0, 0], 3))]);
    p.command_complete(vec![0; 5], Error::CommandComplete);
    p.take_ops();
    assert_eq!(p.command(3, 0, AppId::new(0)), 0);
    p.command_complete(vec![0; 5], Error::CommandComplete);
    assert_eq!(p.command(4, 0, AppId::new(0)), 0);
    p.command_complete(vec![0; 5], Error::CommandComplete);
    assert_eq!(p.command(2, 0, AppId::new(0)), 0);
}
