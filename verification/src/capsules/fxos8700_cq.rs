//! Driver for the FXOS8700CQ accelerometer
//! http://www.nxp.com/assets/documents/data/en/data-sheets/FXOS8700CQ.pdf
//! The driver provides x, y, and z acceleration data to a callback function.
//! To use readings from the sensor in userland, see FXOS8700CQ.h in libtock.
use vstd::prelude::*;
use crate::callback::{AppId, Callback, CallbackView, Upcall, scheduled_upcall};
use crate::driver::Driver;
use crate::hil::i2c::{Error, I2cAction, I2cOp};

verus! {

/// Size of the buffer that the platform gives the driver for I2C messages.
pub const BUF_LEN: usize = 6;

/// Register addresses of the FXOS8700CQ.
pub const REG_SENSOR_STATUS: u8 = 0x00;
pub const REG_OUT_X_MSB: u8 = 0x01;
pub const REG_OUT_X_LSB: u8 = 0x02;
pub const REG_OUT_Y_MSB: u8 = 0x03;
pub const REG_OUT_Y_LSB: u8 = 0x04;
pub const REG_OUT_Z_MSB: u8 = 0x05;
pub const REG_OUT_Z_LSB: u8 = 0x06;
pub const REG_XYZ_DATA_CFG: u8 = 0x0E;
pub const REG_WHO_AM_I: u8 = 0x0D;
pub const REG_CTRL_REG1: u8 = 0x2A;

#[derive(Clone, Copy, PartialEq, Eq, Structural, Debug)]
pub enum State {
    /// Sensor does not take acceleration readings
    Disabled,
    /// Verifying that sensor is present
    Enabling,
    /// Activate sensor to take readings
    Activating,
    /// Reading accelerometer data
    ReadingAcceleration,
    /// Deactivate sensor
    Deactivating(i16, i16, i16),
}

/// What the driver keeps for each process.
#[derive(Clone, Copy, Debug)]
pub struct App {
    callback: Option<Callback>,
    pending_command: bool,
    command: usize,
}

/// The abstract contents of a process's record.
pub ghost struct AppView {
    pub callback: Option<CallbackView>,
    pub pending_command: bool,
    pub command: usize,
}

impl View for App {
    type V = AppView;

    closed spec fn view(&self) -> AppView {
        AppView {
            callback: match self.callback {
                Some(cb) => Some(cb@),
                None => None,
            },
            pending_command: self.pending_command,
            command: self.command,
        }
    }
}

impl Default for App {
    fn default() -> (r: App)
        ensures
            r@ == (AppView { callback: None, pending_command: false, command: 0 }),
    {
        App { callback: None, pending_command: false, command: 0 }
    }
}

/// An effect of the driver that the platform performs.
#[derive(Debug, PartialEq, Eq)]
pub enum FxosOp {
    I2c(I2cOp),
    Upcall(Upcall),
}

pub ghost enum FxosAction {
    I2c(I2cAction),
    Upcall(Upcall),
}

impl View for FxosOp {
    type V = FxosAction;

    open spec fn view(&self) -> FxosAction {
        match self {
            FxosOp::I2c(op) => FxosAction::I2c(op@),
            FxosOp::Upcall(u) => FxosAction::Upcall(*u),
        }
    }
}

pub open spec fn fxos_ops_view(s: Seq<FxosOp>) -> Seq<FxosAction> {
    s.map_values(|o: FxosOp| o@)
}

/// The abstract state of the driver.
pub ghost struct FxosView {
    pub state: State,
    pub buffer: Option<Seq<u8>>,
    /// The record of each process, by process index; `None` where there is
    /// no such process.
    pub apps: Seq<Option<AppView>>,
    /// The index of the process whose reading is in progress.
    pub current_app: Option<usize>,
    pub ops: Seq<FxosAction>,
}

impl FxosView {
    /// The buffer, while held, is large enough for every message, and it is
    /// held whenever no process owns the sensor.
    pub open spec fn wf(self) -> bool {
        &&& self.buffer matches Some(b) ==> b.len() >= 6
        &&& self.current_app is None ==> self.buffer is Some
    }

    /// The record of process `i`, if it exists.
    pub open spec fn app(self, i: usize) -> Option<AppView> {
        if i < self.apps.len() {
            self.apps[i as int]
        } else {
            None
        }
    }
}

// ---------------------------------------------------------------------
// Conversion of a reading.
// ---------------------------------------------------------------------
/// The signed 16-bit value of a register pair, most significant byte first.
pub open spec fn raw_sample(msb: u8, lsb: u8) -> int {
    let u = msb as int * 256 + lsb as int;
    if u >= 32768 {
        u - 65536
    } else {
        u
    }
}

/// The 14-bit sample held left-aligned in a register pair (rounded down).
pub open spec fn sample_14(msb: u8, lsb: u8) -> int {
    raw_sample(msb, lsb) / 4
}

/// A sample in thousandths of g: 0.244 mg per count, rounded toward zero.
pub open spec fn milli_g(sample: int) -> int {
    if sample >= 0 {
        sample * 244 / 1000
    } else {
        -((-sample) * 244 / 1000)
    }
}

/// The acceleration, in thousandths of g, that a register pair holds.
pub open spec fn acceleration(msb: u8, lsb: u8) -> int {
    milli_g(sample_14(msb, lsb))
}

/// Converts a register pair to thousandths of g.
pub fn convert_sample(msb: u8, lsb: u8) -> (r: i16)
    ensures
        r as int == acceleration(msb, lsb),
        -1998 <= r <= 1998,
{
    let u: u32 = (msb as u32) * 256 + (lsb as u32);
    let q: u32 = u / 4;
    let sample: i32 = if u >= 32768 {
        (q as i32) - 16384
    } else {
        q as i32
    };
    assert(sample as int == sample_14(msb, lsb));
    if sample >= 0 {
        let m: u32 = (sample as u32) * 244 / 1000;
        m as i16
    } else {
        let m: u32 = ((0 - sample) as u32) * 244 / 1000;
        0 - (m as i16)
    }
}

// ---------------------------------------------------------------------
// Transitions of the driver.
// ---------------------------------------------------------------------
/// The driver after it started a reading: the bus is turned on and asked to
/// read the WHO_AM_I register.
pub open spec fn after_start_read(v: FxosView) -> FxosView {
    match v.buffer {
        Some(b) => FxosView {
            state: State::Enabling,
            buffer: None,
            ops: v.ops + seq![
                FxosAction::I2c(I2cAction::Enable),
                FxosAction::I2c(I2cAction::WriteRead(b.update(0, REG_WHO_AM_I), 1, 1)),
            ],
            ..v
        },
        None => v,
    }
}

/// The driver after it looked, from process `i` on, for a queued command:
/// each process with a queued command has it dequeued; an unknown command
/// is dropped, and the first queued reading is started, its process
/// becoming the owner of the sensor.
pub open spec fn after_scan(v: FxosView, i: nat) -> FxosView
    decreases v.apps.len() - i,
{
    if i >= v.apps.len() {
        v
    } else {
        match v.apps[i as int] {
            Some(a) => if a.pending_command {
                let v1 = FxosView {
                    apps: v.apps.update(i as int, Some(AppView { pending_command: false, ..a })),
                    ..v
                };
                if a.command == 0 {
                    after_start_read(FxosView { current_app: Some(i as usize), ..v1 })
                } else {
                    after_scan(v1, i + 1)
                }
            } else {
                after_scan(v, i + 1)
            },
            None => after_scan(v, i + 1),
        }
    }
}

/// The driver after the sensor was turned off with the reading `x`, `y`,
/// `z`: the bus is turned off, the buffer kept, the owner's callback
/// scheduled with the reading, and the next queued command dequeued.
pub open spec fn after_deactivated(v: FxosView, b: Seq<u8>, x: i16, y: i16, z: i16) -> FxosView {
    let owner = v.current_app->0;
    let told = match v.app(owner) {
        Some(a) => seq![FxosAction::Upcall(scheduled_upcall(a.callback->0, x as usize, y as usize, z as usize))],
        None => Seq::empty(),
    };
    let v1 = FxosView {
        state: State::Disabled,
        buffer: Some(b),
        current_app: None,
        ops: v.ops + seq![FxosAction::I2c(I2cAction::Disable)] + told,
        ..v
    };
    after_scan(v1, 0)
}

/// The driver after the bus completed the transfer of the current state and
/// handed back `b`.
pub open spec fn after_complete(v: FxosView, b: Seq<u8>) -> FxosView {
    match v.state {
        State::Disabled => v,
        State::Enabling => FxosView {
            state: State::Activating,
            ops: v.ops.push(FxosAction::I2c(I2cAction::Write(b.update(0, REG_CTRL_REG1).update(1, 1u8), 2))),
            ..v
        },
        State::Activating => FxosView {
            state: State::ReadingAcceleration,
            ops: v.ops.push(FxosAction::I2c(I2cAction::WriteRead(b.update(0, REG_OUT_X_MSB), 1, 6))),
            ..v
        },
        State::ReadingAcceleration => FxosView {
            state: State::Deactivating(
                acceleration(b[0], b[1]) as i16,
                acceleration(b[2], b[3]) as i16,
                acceleration(b[4], b[5]) as i16,
            ),
            ops: v.ops.push(FxosAction::I2c(I2cAction::Write(b.update(0, REG_CTRL_REG1).update(1, 0u8), 2))),
            ..v
        },
        State::Deactivating(x, y, z) => after_deactivated(v, b, x, y, z),
    }
}

/// What a completion needs: the buffer holds a whole reading, and when the
/// sensor has been turned off some process owns the reading and, if it
/// still exists, has subscribed a callback.
pub open spec fn completion_ok(v: FxosView, b: Seq<u8>) -> bool {
    &&& b.len() >= 6
    &&& v.state is Deactivating ==> (v.current_app matches Some(i) && (v.app(i) matches Some(a) ==> a.callback is Some))
}

/// The driver and the result after process `app` issued command `command_num`.
pub open spec fn after_command(v: FxosView, command_num: usize, app: usize) -> (FxosView, isize) {
    match v.app(app) {
        None => (v, -1isize),
        Some(a) => if v.current_app is None {
            if command_num == 0 {
                (after_start_read(FxosView { current_app: Some(app), ..v }), 0)
            } else {
                (v, -1isize)
            }
        } else {
            (
                FxosView {
                    apps: v.apps.update(app as int, Some(AppView { pending_command: true, command: command_num, ..a })),
                    ..v
                },
                -10isize,
            )
        },
    }
}

/// The driver and the result after subscription `subscribe_num` of `cb`.
pub open spec fn after_subscribe(v: FxosView, subscribe_num: usize, cb: CallbackView) -> (FxosView, isize) {
    if subscribe_num != 0 {
        (v, -1isize)
    } else {
        match v.app(cb.app_id@) {
            None => (v, -1isize),
            Some(a) => (
                FxosView { apps: v.apps.update(cb.app_id@ as int, Some(AppView { callback: Some(cb), ..a })), ..v },
                0,
            ),
        }
    }
}

/// The conversion reads the register pair as the sensor lays a sample out:
/// a two's complement 16-bit value whose 14 high bits are the sample
/// (`(msb << 8 | lsb) >> 2` on `i16`).
pub proof fn lemma_sample_layout(msb: u8, lsb: u8)
    ensures
        ((((msb as i16) << 8i16) | (lsb as i16)) >> 2i16) as int == sample_14(msb, lsb),
{
    let x: i16 = ((msb as i16) << 8i16) | (lsb as i16);
    let u: u16 = ((msb as u16) << 8u16) | (lsb as u16);
    assert(x as u16 == u && (u as int == msb as int * 256 + lsb as int)) by (bit_vector)
        requires
            x == ((msb as i16) << 8i16) | (lsb as i16),
            u == ((msb as u16) << 8u16) | (lsb as u16),
    ;
    assert(x as int == (if u >= 32768 { u as int - 65536 } else { u as int })) by (bit_vector)
        requires
            x as u16 == u,
    ;
    let q: i16 = x >> 2i16;
    let r: i16 = x & 3i16;
    assert(q as int * 4 + r as int == x as int && 0 <= r <= 3) by (bit_vector)
        requires
            q == x >> 2i16,
            r == x & 3i16,
    ;
}

/// The first process from `i` on with a queued command.
pub open spec fn no_queued_command_between(v: FxosView, i: nat, k: nat) -> bool {
    forall|j: int| i <= j < k ==> !(#[trigger] v.apps[j] matches Some(a) && a.pending_command)
}

proof fn lemma_scan_skips(v: FxosView, i: nat, k: nat)
    requires
        i <= k <= v.apps.len(),
        no_queued_command_between(v, i, k),
    ensures
        after_scan(v, i) == after_scan(v, k),
    decreases k - i,
{
    if i < k {
        lemma_scan_skips(v, i + 1, k);
    }
}

/// When a reading completes, the queued commands are run in process order:
/// with no queued command nothing more happens; if the lowest process with
/// a queued command queued a reading, it has it dequeued, owns the sensor
/// and the reading starts.
pub proof fn lemma_queued_commands_run_in_order(v: FxosView, k: nat)
    requires
        v.buffer is Some,
        k <= v.apps.len(),
        no_queued_command_between(v, 0, k),
    ensures
        k == v.apps.len() ==> after_scan(v, 0) == v,
        k < v.apps.len() && (v.apps[k as int] matches Some(a) && a.pending_command && a.command == 0)
            ==> ({
            let w = after_scan(v, 0);
            &&& w.current_app == Some(k as usize)
            &&& w.state == State::Enabling
            &&& w.buffer is None
            &&& w.apps[k as int] matches Some(b) && !b.pending_command
        }),
{
    lemma_scan_skips(v, 0, k);
}

/// After the queued commands are run, a process owns the sensor only if its
/// reading has started: the sensor is never left owned while idle.
pub proof fn lemma_scan_owner_is_reading(v: FxosView, i: nat)
    requires
        v.buffer is Some,
        v.current_app is None,
    ensures
        after_scan(v, i).current_app is Some ==> after_scan(v, i).state == State::Enabling
            && after_scan(v, i).buffer is None,
    decreases v.apps.len() - i,
{
    if i < v.apps.len() {
        match v.apps[i as int] {
            Some(a) => {
                if a.pending_command {
                    let v1 = FxosView {
                        apps: v.apps.update(i as int, Some(AppView { pending_command: false, ..a })),
                        ..v
                    };
                    if a.command != 0 {
                        lemma_scan_owner_is_reading(v1, i + 1);
                    }
                } else {
                    lemma_scan_owner_is_reading(v, i + 1);
                }
            },
            None => {
                lemma_scan_owner_is_reading(v, i + 1);
            },
        }
    }
}

/// An acceleration always fits in an `i16`: it lies within ±1998 milli-g.
pub proof fn lemma_acceleration_range(msb: u8, lsb: u8)
    ensures
        -1998 <= acceleration(msb, lsb) <= 1998,
{
    let s = sample_14(msb, lsb);
    assert(-8192 <= s <= 8191);
    if s >= 0 {
        assert(0 <= s * 244 / 1000 <= 1998) by (nonlinear_arith)
            requires
                0 <= s <= 8191,
        ;
    } else {
        assert(0 <= (-s) * 244 / 1000 <= 1998) by (nonlinear_arith)
            requires
                1 <= -s <= 8192,
        ;
    }
}

proof fn lemma_scan_keeps_ops(v: FxosView, i: nat)
    ensures
        after_scan(v, i).ops.len() >= v.ops.len(),
        after_scan(v, i).ops.subrange(0, v.ops.len() as int) == v.ops,
    decreases v.apps.len() - i,
{
    if i < v.apps.len() {
        match v.apps[i as int] {
            Some(a) => {
                let v1 = FxosView {
                    apps: v.apps.update(i as int, Some(AppView { pending_command: false, ..a })),
                    ..v
                };
                if a.pending_command {
                    if a.command != 0 {
                        lemma_scan_keeps_ops(v1, i + 1);
                    } else {
                        let w = after_scan(v, i);
                        assert(w.ops.subrange(0, v.ops.len() as int) =~= v.ops);
                    }
                } else {
                    lemma_scan_keeps_ops(v, i + 1);
                }
            },
            None => {
                lemma_scan_keeps_ops(v, i + 1);
            },
        }
    }
}

/// A reading reaches its owner: completing the data read with the six
/// bytes `b` deactivates the sensor with the acceleration of each register
/// pair (x from bytes 0-1, y from 2-3, z from 4-5), and completing the
/// deactivation schedules the owner's callback with x, y and z (as
/// sign-extended words), right after turning the bus off.
pub proof fn lemma_reading_reported(v: FxosView, b: Seq<u8>, b2: Seq<u8>, owner: usize, cb: CallbackView)
    requires
        v.state == State::ReadingAcceleration,
        b.len() >= 6,
        v.current_app == Some(owner),
        v.app(owner) matches Some(a) && a.callback == Some(cb),
    ensures
        ({
            let v1 = after_complete(v, b);
            let v2 = after_complete(v1, b2);
            let x = acceleration(b[0], b[1]);
            let y = acceleration(b[2], b[3]);
            let z = acceleration(b[4], b[5]);
            &&& v1.state matches State::Deactivating(sx, sy, sz) && sx as int == x && sy as int == y && sz as int
                == z
            &&& v2.ops.len() >= v.ops.len() + 3
            &&& v2.ops[v.ops.len() + 1int] == FxosAction::I2c(I2cAction::Disable)
            &&& v2.ops[v.ops.len() + 2int] == FxosAction::Upcall(
                scheduled_upcall(cb, x as i16 as usize, y as i16 as usize, z as i16 as usize),
            )
        }),
{
    lemma_acceleration_range(b[0], b[1]);
    lemma_acceleration_range(b[2], b[3]);
    lemma_acceleration_range(b[4], b[5]);
    let v1 = after_complete(v, b);
    let x = acceleration(b[0], b[1]) as i16;
    let y = acceleration(b[2], b[3]) as i16;
    let z = acceleration(b[4], b[5]) as i16;
    assert(v1.state == State::Deactivating(x, y, z));
    let told = seq![FxosAction::Upcall(scheduled_upcall(cb, x as usize, y as usize, z as usize))];
    let mid = FxosView {
        state: State::Disabled,
        buffer: Some(b2),
        current_app: None,
        ops: v1.ops + seq![FxosAction::I2c(I2cAction::Disable)] + told,
        ..v1
    };
    assert(after_complete(v1, b2) == after_scan(mid, 0));
    lemma_scan_keeps_ops(mid, 0);
    let v2 = after_complete(v1, b2);
    assert(v2.ops[v.ops.len() + 1int] == mid.ops[v.ops.len() + 1int]);
    assert(v2.ops[v.ops.len() + 2int] == mid.ops[v.ops.len() + 2int]);
}

/// The FXOS8700CQ driver.  One process at a time owns the sensor; commands
/// of the others are queued, one per process.
pub struct Fxos8700cq {
    state: State,
    buffer: Option<Vec<u8>>,
    apps: Vec<Option<App>>,
    current_app: Option<AppId>,
    ops: Vec<FxosOp>,
}

pub open spec fn apps_view(apps: Seq<Option<App>>) -> Seq<Option<AppView>> {
    apps.map_values(
        |a: Option<App>|
            match a {
                Some(x) => Some(x@),
                None => None,
            },
    )
}

impl View for Fxos8700cq {
    type V = FxosView;

    closed spec fn view(&self) -> FxosView {
        FxosView {
            state: self.state,
            buffer: match self.buffer {
                Some(b) => Some(b@),
                None => None,
            },
            apps: apps_view(self.apps@),
            current_app: match self.current_app {
                Some(a) => Some(a@),
                None => None,
            },
            ops: fxos_ops_view(self.ops@),
        }
    }
}

proof fn lemma_apps_view_update(apps: Seq<Option<App>>, i: int, a: App)
    requires
        0 <= i < apps.len(),
    ensures
        apps_view(apps.update(i, Some(a))) == apps_view(apps).update(i, Some(a@)),
{
    assert(apps_view(apps.update(i, Some(a))) =~= apps_view(apps).update(i, Some(a@)));
}

impl Fxos8700cq {
    /// A driver using `buffer` for its messages and `container` for the
    /// record of each process.
    pub fn new(buffer: Vec<u8>, container: Vec<Option<App>>) -> (r: Fxos8700cq)
        requires
            buffer@.len() >= 6,
        ensures
            r@ == (FxosView {
                state: State::Enabling,
                buffer: Some(buffer@),
                apps: apps_view(container@),
                current_app: None,
                ops: Seq::empty(),
            }),
            r@.wf(),
    {
        let r = Fxos8700cq {
            state: State::Enabling,
            buffer: Some(buffer),
            apps: container,
            current_app: None,
            ops: Vec::new(),
        };
        assert(fxos_ops_view(r.ops@) =~= Seq::empty());
        r
    }

    /// Hands the platform the effects logged so far, oldest first.
    pub fn take_ops(&mut self) -> (r: Vec<FxosOp>)
        ensures
            fxos_ops_view(r@) == old(self)@.ops,
            final(self)@ == (FxosView { ops: Seq::empty(), ..old(self)@ }),
    {
        let mut r = Vec::new();
        std::mem::swap(&mut r, &mut self.ops);
        assert(fxos_ops_view(self.ops@) =~= Seq::empty());
        r
    }

    fn log(&mut self, op: FxosOp)
        ensures
            final(self)@ == (FxosView { ops: old(self)@.ops.push(op@), ..old(self)@ }),
    {
        self.ops.push(op);
        assert(fxos_ops_view(self.ops@) =~= fxos_ops_view(old(self).ops@).push(op@));
    }

    /// Starts a reading: turns the bus on and reads the WHO_AM_I register.
    pub fn start_read_accel(&mut self)
        requires
            old(self)@.buffer matches Some(b) && b.len() >= 6,
        ensures
            final(self)@ == after_start_read(old(self)@),
    {
        match self.buffer.take() {
            Some(mut buf) => {
                self.log(FxosOp::I2c(I2cOp::Enable));
                buf.set(0, REG_WHO_AM_I);
                self.log(FxosOp::I2c(I2cOp::WriteRead(buf, 1, 1)));
                self.state = State::Enabling;
                assert(self@.ops =~= after_start_read(old(self)@).ops);
            },
            None => {},
        }
    }

    /// Looks for a queued command, from the first process on.
    fn run_next_command(&mut self)
        requires
            old(self)@.wf(),
            old(self)@.current_app is None,
        ensures
            final(self)@ == after_scan(old(self)@, 0),
            final(self)@.wf(),
    {
        let ghost v0 = self@;
        let mut i: usize = 0;
        let mut started = false;
        while i < self.apps.len() && !started
            invariant
                i <= self.apps.len(),
                self.apps.len() == v0.apps.len(),
                self@.wf(),
                !started ==> self@.buffer is Some,
                !started ==> after_scan(v0, 0) == after_scan(self@, i as nat),
                started ==> after_scan(v0, 0) == self@,
            decreases self.apps.len() - i,
        {
            let ghost vb = self@;
            match self.apps[i] {
                Some(app) => {
                    if app.pending_command {
                        let mut updated = app;
                        updated.pending_command = false;
                        let ghost before = self.apps@;
                        self.apps.set(i, Some(updated));
                        proof {
                            lemma_apps_view_update(before, i as int, updated);
                        }
                        assert(self@ == (FxosView {
                            apps: vb.apps.update(i as int, Some(AppView { pending_command: false, ..app@ })),
                            ..vb
                        }));
                        if app.command == 0 {
                            self.current_app = Some(AppId::new(i));
                            self.start_read_accel();
                            started = true;
                        }
                    }
                },
                None => {},
            }
            i = i + 1;
        }
    }

    /// The bus finished the transfer of the current state and hands
    /// `buffer` back.  A reading goes: check the sensor is present, activate
    /// it, read the six data registers, deactivate it, schedule the owner's
    /// callback with the acceleration in thousandths of g, and run the next
    /// queued command.
    pub fn command_complete(&mut self, buffer: Vec<u8>, _error: Error)
        requires
            old(self)@.wf(),
            completion_ok(old(self)@, buffer@),
        ensures
            final(self)@ == after_complete(old(self)@, buffer@),
            final(self)@.wf(),
    {
        let mut buffer = buffer;
        match self.state {
            State::Disabled => {},
            State::Enabling => {
                buffer.set(0, REG_CTRL_REG1);
                buffer.set(1, 1);  // active
                self.log(FxosOp::I2c(I2cOp::Write(buffer, 2)));
                self.state = State::Activating;
            },
            State::Activating => {
                buffer.set(0, REG_OUT_X_MSB);
                // read 6 accel registers for xyz
                self.log(FxosOp::I2c(I2cOp::WriteRead(buffer, 1, 6)));
                self.state = State::ReadingAcceleration;
            },
            State::ReadingAcceleration => {
                let x = convert_sample(buffer[0], buffer[1]);
                let y = convert_sample(buffer[2], buffer[3]);
                let z = convert_sample(buffer[4], buffer[5]);
                // Clear ACTIVE in CTRL_REG1 to put the sensor in standby.
                buffer.set(0, REG_CTRL_REG1);
                buffer.set(1, 0);
                self.log(FxosOp::I2c(I2cOp::Write(buffer, 2)));
                self.state = State::Deactivating(x, y, z);
            },
            State::Deactivating(x, y, z) => {
                let ghost v0 = self@;
                self.log(FxosOp::I2c(I2cOp::Disable));
                self.state = State::Disabled;
                self.buffer = Some(buffer);
                // Notify the current app of the reading.
                let owner = self.current_app.unwrap();
                self.current_app = None;
                let idx = owner.idx();
                if idx < self.apps.len() {
                    match self.apps[idx] {
                        Some(app) => {
                            let cb = app.callback.unwrap();
                            let u = cb.schedule(
                                #[verifier::truncate]
                                (x as usize),
                                #[verifier::truncate]
                                (y as usize),
                                #[verifier::truncate]
                                (z as usize),
                            );
                            self.log(FxosOp::Upcall(u));
                        },
                        None => {},
                    }
                }
                assert(self@.ops =~= v0.ops + seq![FxosAction::I2c(I2cAction::Disable)] + match v0.app(idx) {
                    Some(a) => seq![FxosAction::Upcall(scheduled_upcall(a.callback->0, x as usize, y as usize, z as usize))],
                    None => Seq::empty(),
                });
                assert(self@ == (FxosView {
                    state: State::Disabled,
                    buffer: Some(buffer@),
                    current_app: None,
                    ops: v0.ops + seq![FxosAction::I2c(I2cAction::Disable)] + match v0.app(idx) {
                        Some(a) => seq![FxosAction::Upcall(scheduled_upcall(a.callback->0, x as usize, y as usize, z as usize))],
                        None => Seq::empty(),
                    },
                    ..v0
                }));
                // Check to see if there are any pending operations.
                self.run_next_command();
            },
        }
    }
}

impl Driver for Fxos8700cq {
    open spec fn driver_inv(&self) -> bool {
        self@.wf()
    }

    /// Subscription 0 sets the callback of the subscribing process.
    fn subscribe(&mut self, subscribe_num: usize, callback: Callback) -> (r: isize)
        ensures
            (final(self)@, r) == after_subscribe(old(self)@, subscribe_num, callback@),
    {
        if subscribe_num != 0 {
            return -1;
        }
        let idx = callback.app_id().idx();
        if idx >= self.apps.len() {
            return -1;
        }
        match self.apps[idx] {
            Some(app) => {
                let mut updated = app;
                updated.callback = Some(callback);
                self.apps.set(idx, Some(updated));
                proof {
                    lemma_apps_view_update(old(self).apps@, idx as int, updated);
                }
                0
            },
            None => -1,
        }
    }

    /// Command 0 reads the acceleration.  If the sensor is busy, the command
    /// is queued (one per process) and run when the reading in progress
    /// completes (-10); otherwise a reading starts with the process as the
    /// owner of the sensor, and any command but 0 fails (-1), leaving the
    /// sensor free.
    fn command(&mut self, command_num: usize, _arg1: usize, appid: AppId) -> (r: isize)
        ensures
            (final(self)@, r) == after_command(old(self)@, command_num, appid@),
    {
        let idx = appid.idx();
        if idx >= self.apps.len() {
            return -1;
        }
        match self.apps[idx] {
            Some(app) => {
                // Check so see if we are doing something. If not,
                // go ahead and do this command. If so, this is queued
                // and will be run when the pending command completes.
                if self.current_app.is_none() {
                    if command_num == 0 {
                        self.current_app = Some(appid);
                        self.start_read_accel();
                        0
                    } else {
                        -1
                    }
                } else {
                    let mut updated = app;
                    updated.pending_command = true;
                    updated.command = command_num;
                    self.apps.set(idx, Some(updated));
                    proof {
                        lemma_apps_view_update(old(self).apps@, idx as int, updated);
                    }
                    -10
                }
            },
            None => -1,
        }
    }
}

} // verus!
