use tock::callback::{AppId, Callback, FunctionCall, Upcall};
use tock::capsules::fxos8700_cq::{convert_sample, App, FxosOp, Fxos8700cq, REG_CTRL_REG1, REG_OUT_X_MSB, REG_WHO_AM_I};
use tock::driver::Driver;
use tock::hil::i2c::{Error, I2cOp};

fn driver() -> Fxos8700cq {
    Fxos8700cq::new(vec![0; 6], vec![Some(App::default()), Some(App::default()), None])
}

fn callback(app: usize) -> Callback {
    Callback::new(AppId::new(app), 100 + app, 0x2000 + app, None)
}

fn start_ops() -> Vec<FxosOp> {
    vec![
        FxosOp::I2c(I2cOp::Enable),
        FxosOp::I2c(I2cOp::WriteRead(vec![REG_WHO_AM_I, 0, 0, 0, 0, 0], 1, 1)),
    ]
}

#[test]
fn conversion_values() {
    assert_eq!(convert_sample(0x40, 0x00), 999);
    assert_eq!(convert_sample(0xC0, 0x00), -999);
    assert_eq!(convert_sample(0x7F, 0xFC), 1998);
    assert_eq!(convert_sample(0x80, 0x00), -1998);
    assert_eq!(convert_sample(0xFF, 0xFC), 0);
    assert_eq!(convert_sample(0xFE, 0x00), -31);
    assert_eq!(convert_sample(0x00, 0x00), 0);
    assert_eq!(convert_sample(0x01, 0x00), 15);
}

#[test]
fn conversion_matches_register_arithmetic() {
    for msb in 0..=255u8 {
        for lsb in (0..=255u8).step_by(7) {
            let x = ((((msb as i16) << 8) | lsb as i16) >> 2) as isize;
            let expected = (x * 244) / 1000;
            assert_eq!(convert_sample(msb, lsb) as isize, expected);
        }
    }
}

#[test]
fn subscribe_rules() {
    let mut d = driver();
    assert_eq!(d.subscribe(0, callback(0)), 0);
    assert_eq!(d.subscribe(1, callback(0)), -1);
    assert_eq!(d.subscribe(0, callback(2)), -1);
    assert_eq!(d.subscribe(0, callback(7)), -1);
}

#[test]
fn reading_goes_through_all_states() {
    let mut d = driver();
    assert_eq!(d.subscribe(0, callback(0)), 0);
    assert_eq!(d.command(0, 0, AppId::new(0)), 0);
    assert_eq!(d.take_ops(), start_ops());
    d.command_complete(vec![REG_WHO_AM_I, 0, 0, 0, 0, 0], Error::CommandComplete);
    assert_eq!(d.take_ops(), vec![FxosOp::I2c(I2cOp::Write(vec![REG_CTRL_REG1, 1, 0, 0, 0, 0], 2))]);
    d.command_complete(vec![REG_CTRL_REG1, 1, 0, 0, 0, 0], Error::CommandComplete);
    assert_eq!(d.take_ops(), vec![FxosOp::I2c(I2cOp::WriteRead(vec![REG_OUT_X_MSB, 1, 0, 0, 0, 0], 1, 6))]);
    d.command_complete(vec![0x40, 0x00, 0xC0, 0x00, 0x00, 0x04], Error::CommandComplete);
    // deactivate: CTRL_REG1 = 0
    assert_eq!(d.take_ops(), vec![FxosOp::I2c(I2cOp::Write(vec![REG_CTRL_REG1, 0x00, 0xC0, 0x00, 0x00, 0x04], 2))]);
    d.command_complete(vec![0, 0, 0, 0, 0, 0], Error::CommandComplete);
    assert_eq!(
        d.take_ops(),
        vec![
            FxosOp::I2c(I2cOp::Disable),
            FxosOp::Upcall(Upcall::Process {
                app_id: AppId::new(0),
                call: FunctionCall { r0: 999, r1: (-999isize) as usize, r2: 0, r3: 100, pc: 0x2000 },
            }),
        ]
    );
    // the sensor is free again
    assert_eq!(d.command(0, 0, AppId::new(1)), 0);
    assert_eq!(d.take_ops(), start_ops());
}

#[test]
fn busy_sensor_queues_and_runs_next_command() {
    let mut d = driver();
    assert_eq!(d.subscribe(0, callback(0)), 0);
    assert_eq!(d.subscribe(0, callback(1)), 0);
    assert_eq!(d.command(0, 0, AppId::new(0)), 0);
    assert_eq!(d.command(0, 0, AppId::new(1)), -10);
    d.take_ops();
    d.command_complete(vec![0; 6], Error::CommandComplete);
    d.command_complete(vec![0; 6], Error::CommandComplete);
    d.command_complete(vec![0; 6], Error::CommandComplete);
    d.take_ops();
    d.command_complete(vec![0; 6], Error::CommandComplete);
    let ops = d.take_ops();
    assert_eq!(ops.len(), 4);
    assert_eq!(ops[0], FxosOp::I2c(I2cOp::Disable));
    assert_eq!(
        ops[1],
        FxosOp::Upcall(Upcall::Process {
            app_id: AppId::new(0),
            call: FunctionCall { r0: 0, r1: 0, r2: 0, r3: 100, pc: 0x2000 },
        })
    );
    // the queued reading of process 1 starts at once
    assert_eq!(ops[2], FxosOp::I2c(I2cOp::Enable));
    // a third command while busy is queued
    assert_eq!(d.command(0, 0, AppId::new(0)), -10);
}

#[test]
fn unknown_command_leaves_sensor_free() {
    let mut d = driver();
    assert_eq!(d.command(3, 0, AppId::new(0)), -1);
    assert_eq!(d.take_ops(), vec![]);
    assert_eq!(d.command(0, 0, AppId::new(0)), 0);
    assert_eq!(d.take_ops(), start_ops());
}

#[test]
fn queued_unknown_command_is_dropped() {
    let mut d = driver();
    assert_eq!(d.subscribe(0, callback(0)), 0);
    assert_eq!(d.command(0, 0, AppId::new(0)), 0);
    assert_eq!(d.command(4, 0, AppId::new(1)), -10);
    for _ in 0..3 {
        d.command_complete(vec![0; 6], Error::CommandComplete);
    }
    d.take_ops();
    d.command_complete(vec![0; 6], Error::CommandComplete);
    let ops = d.take_ops();
    // disable, upcall; nothing started for the unknown command
    assert_eq!(ops.len(), 2);
    // the sensor is free
    assert_eq!(d.command(0, 0, AppId::new(1)), 0);
}

#[test]
fn command_from_missing_process_fails() {
    let mut d = driver();
    assert_eq!(d.command(0, 0, AppId::new(2)), -1);
    assert_eq!(d.command(0, 0, AppId::new(9)), -1);
    assert_eq!(d.take_ops(), vec![]);
}

#[test]
fn completion_when_disabled_does_nothing() {
    let mut d = driver();
    d.subscribe(0, callback(0));
    d.command(0, 0, AppId::new(0));
    for _ in 0..4 {
        d.command_complete(vec![0; 6], Error::CommandComplete);
    }
    d.take_ops();
    d.command_complete(vec![0; 6], Error::CommandComplete);
    assert_eq!(d.take_ops(), vec![]);
}
