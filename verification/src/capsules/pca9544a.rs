//! Driver for the PCA9544A I2C Selector.
//!
//! This chip allows for multiple I2C devices with the same addresses to
//! sit on the same I2C bus.
//!
//! http://www.ti.com/product/PCA9544A
use vstd::prelude::*;
use crate::callback::{AppId, Callback, CallbackView, Upcall, scheduled_upcall};
use crate::driver::Driver;
use crate::hil::i2c::{Error, I2cAction, I2cOp};
use crate::returncode::{ReturnCode, return_code_value};

verus! {

/// Size of the buffer that the platform gives the driver for I2C messages.
pub const BUFFER_LEN: usize = 5;

/// A field of the control register.
#[derive(Clone, Copy, PartialEq, Eq, Structural, Debug)]
pub enum ControlField {
    InterruptMask,
    SelectedChannels,
}

pub open spec fn control_field_number(f: ControlField) -> usize {
    match f {
        ControlField::InterruptMask => 0,
        ControlField::SelectedChannels => 1,
    }
}

/// The value of a field in the control register byte.
pub open spec fn control_field_value(f: ControlField, control: u8) -> u8 {
    match f {
        ControlField::InterruptMask => (control >> 4u8) & 0x0Fu8,
        ControlField::SelectedChannels => control & 0x07u8,
    }
}

#[derive(Clone, Copy, PartialEq, Eq, Structural, Debug)]
pub enum State {
    Idle,
    /// Read the control register and return the specifed data field.
    ReadControl(ControlField),
    Done,
}

/// An effect of the driver that the platform performs.
#[derive(Debug, PartialEq, Eq)]
pub enum PcaOp {
    I2c(I2cOp),
    Upcall(Upcall),
}

pub ghost enum PcaAction {
    I2c(I2cAction),
    Upcall(Upcall),
}

impl View for PcaOp {
    type V = PcaAction;

    open spec fn view(&self) -> PcaAction {
        match self {
            PcaOp::I2c(op) => PcaAction::I2c(op@),
            PcaOp::Upcall(u) => PcaAction::Upcall(*u),
        }
    }
}

pub open spec fn pca_ops_view(s: Seq<PcaOp>) -> Seq<PcaAction> {
    s.map_values(|o: PcaOp| o@)
}

/// The abstract state of the driver.
pub ghost struct PcaView {
    pub state: State,
    pub buffer: Option<Seq<u8>>,
    pub callback: Option<CallbackView>,
    pub ops: Seq<PcaAction>,
}

impl PcaView {
    /// The buffer, while held, is large enough for every message.
    pub open spec fn wf(self) -> bool {
        self.buffer matches Some(b) ==> b.len() >= 5
    }
}

/// Whether channel `i` is enabled in a channel bit mask.
pub open spec fn channel_selected(mask: u8, i: u8) -> bool {
    mask & (0x01u8 << i) != 0
}

/// The command bytes that enable the channels of `mask` below `n`, in
/// increasing order of channel: channel `i` is enabled by the byte `i + 4`
/// (bits B2 B1 B0 start at 0x04).
pub open spec fn channel_bytes(mask: u8, n: nat) -> Seq<u8>
    decreases n,
{
    if n == 0 {
        Seq::empty()
    } else {
        let prev = channel_bytes(mask, (n - 1) as nat);
        if channel_selected(mask, (n - 1) as u8) {
            prev.push((n - 1 + 4) as u8)
        } else {
            prev
        }
    }
}

/// The message that selects the channels of `mask`: a zero byte (clear the
/// settings, to get to a known state) followed by the enabling bytes.
pub open spec fn channel_message(b: Seq<u8>, mask: u8, n: nat) -> Seq<u8> {
    let c = channel_bytes(mask, n);
    Seq::new(b.len(), |j: int| if j == 0 { 0u8 } else if 1 <= j <= c.len() { c[j - 1] } else { b[j] })
}

/// The driver after it turned the bus on and handed it `data` to write
/// `len` bytes of, or to read `len` bytes into, entering `next`.
pub open spec fn started(v: PcaView, op: I2cAction, next: State) -> PcaView {
    PcaView {
        state: next,
        buffer: None,
        ops: v.ops + seq![PcaAction::I2c(I2cAction::Enable), PcaAction::I2c(op)],
        ..v
    }
}

pub open spec fn after_select_channels(v: PcaView, mask: u8) -> (PcaView, ReturnCode) {
    match v.buffer {
        Some(b) => (
            started(
                v,
                I2cAction::Write(channel_message(b, mask, 4), (1 + channel_bytes(mask, 4).len()) as u8),
                State::Done,
            ),
            ReturnCode::SUCCESS,
        ),
        None => (v, ReturnCode::ENOMEM),
    }
}

pub open spec fn after_read_control(v: PcaView, field: ControlField) -> (PcaView, ReturnCode) {
    match v.buffer {
        Some(b) => (started(v, I2cAction::Read(b, 1), State::ReadControl(field)), ReturnCode::SUCCESS),
        None => (v, ReturnCode::ENOMEM),
    }
}

/// The driver after it finished a command: the process's callback (if
/// any) is scheduled with `r0`, `r1`, the buffer comes back and the bus is
/// turned off.
pub open spec fn finished(v: PcaView, b: Seq<u8>, r0: usize, r1: usize) -> PcaView {
    let told = match v.callback {
        Some(cb) => seq![PcaAction::Upcall(scheduled_upcall(cb, r0, r1, 0))],
        None => Seq::empty(),
    };
    PcaView {
        state: State::Idle,
        buffer: Some(b),
        ops: v.ops + told + seq![PcaAction::I2c(I2cAction::Disable)],
        ..v
    }
}

pub open spec fn after_complete(v: PcaView, b: Seq<u8>) -> PcaView {
    match v.state {
        State::ReadControl(field) => finished(
            v,
            b,
            (control_field_number(field) + 1) as usize,
            control_field_value(field, b[0]) as usize,
        ),
        State::Done => finished(v, b, 0, 0),
        State::Idle => v,
    }
}

/// The driver and the result after command `command_num` with `data`.
pub open spec fn after_command(v: PcaView, command_num: usize, data: usize) -> (PcaView, isize) {
    if command_num == 0 {
        (v, 0isize)
    } else if command_num == 1 {
        let (v1, rc) = after_select_channels(v, data as u8);
        (v1, -return_code_value(rc) as isize)
    } else if command_num == 2 {
        let (v1, rc) = after_select_channels(v, 0);
        (v1, -return_code_value(rc) as isize)
    } else if command_num == 3 {
        let (v1, rc) = after_read_control(v, ControlField::InterruptMask);
        (v1, -return_code_value(rc) as isize)
    } else if command_num == 4 {
        let (v1, rc) = after_read_control(v, ControlField::SelectedChannels);
        (v1, -return_code_value(rc) as isize)
    } else {
        (v, -1isize)
    }
}

/// The message of a channel selection enables exactly the channels whose
/// bit is set in the mask (among the four channels), each once, in
/// increasing order.
pub proof fn lemma_channel_bytes(mask: u8, n: nat)
    requires
        n <= 4,
    ensures
        channel_bytes(mask, n).len() <= n,
        forall|j: int|
            0 <= j < channel_bytes(mask, n).len() ==> 4 <= #[trigger] channel_bytes(mask, n)[j] < 4 + n
                && channel_selected(mask, (channel_bytes(mask, n)[j] - 4) as u8),
        forall|j: int, k: int|
            0 <= j < k < channel_bytes(mask, n).len() ==> #[trigger] channel_bytes(mask, n)[j] < #[trigger] channel_bytes(mask, n)[k],
        forall|i: u8| i < n && channel_selected(mask, i) ==> #[trigger] channel_bytes(mask, n).contains((i + 4) as u8),
    decreases n,
{
    if n > 0 {
        lemma_channel_bytes(mask, (n - 1) as nat);
        let prev = channel_bytes(mask, (n - 1) as nat);
        let c = channel_bytes(mask, n);
        assert forall|i: u8| i < n && channel_selected(mask, i) implies #[trigger] c.contains((i + 4) as u8) by {
            if i < n - 1 {
                assert(prev.contains((i + 4) as u8));
                let w = choose|w: int| 0 <= w < prev.len() && prev[w] == (i + 4) as u8;
                assert(c[w] == prev[w]);
            } else {
                assert(c[c.len() - 1] == (i + 4) as u8);
            }
        }
    }
}

/// Command 2 disables every channel: while the buffer is free it succeeds
/// (answers 0), turns the bus on and writes one byte, the zero that clears
/// the control register, enabling no channel; without the buffer it
/// answers ENOMEM and changes nothing.
pub proof fn lemma_disable_all_channels(v: PcaView, data: usize)
    requires
        v.wf(),
    ensures
        ({
            let (v1, r) = after_command(v, 2, data);
            match v.buffer {
                Some(b) => {
                    &&& r == 0
                    &&& v1.state == State::Done
                    &&& v1.buffer is None
                    &&& v1.callback == v.callback
                    &&& v1.ops == v.ops + seq![
                        PcaAction::I2c(I2cAction::Enable),
                        PcaAction::I2c(I2cAction::Write(b.update(0, 0u8), 1u8)),
                    ]
                },
                None => v1 == v && r == -return_code_value(ReturnCode::ENOMEM),
            }
        }),
{
    assert(0u8 & (0x01u8 << 0u8) == 0u8 && 0u8 & (0x01u8 << 1u8) == 0u8 && 0u8 & (0x01u8 << 2u8) == 0u8
        && 0u8 & (0x01u8 << 3u8) == 0u8) by (bit_vector);
    assert(channel_bytes(0u8, 0) =~= Seq::<u8>::empty());
    assert(channel_bytes(0u8, 1) =~= Seq::<u8>::empty());
    assert(channel_bytes(0u8, 2) =~= Seq::<u8>::empty());
    assert(channel_bytes(0u8, 3) =~= Seq::<u8>::empty());
    assert(channel_bytes(0u8, 4) =~= Seq::<u8>::empty());
    if let Some(b) = v.buffer {
        assert(channel_message(b, 0u8, 4) =~= b.update(0, 0u8));
    }
}

/// The PCA9544A driver.
pub struct PCA9544A {
    state: State,
    buffer: Option<Vec<u8>>,
    callback: Option<Callback>,
    ops: Vec<PcaOp>,
}

impl View for PCA9544A {
    type V = PcaView;

    closed spec fn view(&self) -> PcaView {
        PcaView {
            state: self.state,
            buffer: match self.buffer {
                Some(b) => Some(b@),
                None => None,
            },
            callback: match self.callback {
                Some(cb) => Some(cb@),
                None => None,
            },
            ops: pca_ops_view(self.ops@),
        }
    }
}

impl PCA9544A {
    /// A driver using `buffer` for its messages.
    pub fn new(buffer: Vec<u8>) -> (r: PCA9544A)
        requires
            buffer@.len() >= 5,
        ensures
            r@ == (PcaView { state: State::Idle, buffer: Some(buffer@), callback: None, ops: Seq::empty() }),
            r@.wf(),
    {
        let r = PCA9544A { state: State::Idle, buffer: Some(buffer), callback: None, ops: Vec::new() };
        assert(pca_ops_view(r.ops@) =~= Seq::empty());
        r
    }

    /// Hands the platform the effects logged so far, oldest first.
    pub fn take_ops(&mut self) -> (r: Vec<PcaOp>)
        ensures
            pca_ops_view(r@) == old(self)@.ops,
            final(self)@ == (PcaView { ops: Seq::empty(), ..old(self)@ }),
    {
        let mut r = Vec::new();
        std::mem::swap(&mut r, &mut self.ops);
        assert(pca_ops_view(self.ops@) =~= Seq::empty());
        r
    }

    fn log(&mut self, op: PcaOp)
        ensures
            final(self)@ == (PcaView { ops: old(self)@.ops.push(op@), ..old(self)@ }),
    {
        self.ops.push(op);
        assert(pca_ops_view(self.ops@) =~= pca_ops_view(old(self).ops@).push(op@));
    }

    fn start(&mut self, op: I2cOp, next: State)
        requires
            old(self).buffer is None,
        ensures
            final(self)@ == started(old(self)@, op@, next),
    {
        self.log(PcaOp::I2c(I2cOp::Enable));
        let ghost a = op@;
        self.log(PcaOp::I2c(op));
        self.state = next;
        assert(self@.ops =~= old(self)@.ops + seq![PcaAction::I2c(I2cAction::Enable), PcaAction::I2c(a)]);
    }

    /// Choose which channel(s) are active. Channels are encoded with a bitwise
    /// mask (0x01 means enable channel 0, 0x0F means enable all channels).
    /// Send 0 to disable all channels.
    pub fn select_channels(&mut self, channel_bitmask: u8) -> (r: ReturnCode)
        requires
            old(self)@.wf(),
        ensures
            (final(self)@, r) == after_select_channels(old(self)@, channel_bitmask),
            final(self)@.wf(),
    {
        match self.buffer.take() {
            Some(mut buffer) => {
                let ghost b0 = buffer@;
                // Always clear the settings so we get to a known state
                buffer.set(0, 0);
                // Iterate the bit array to send the correct channel enables
                let mut index: usize = 1;
                let mut i: u8 = 0;
                while i < 4
                    invariant
                        i <= 4,
                        buffer@.len() == b0.len(),
                        b0.len() >= 5,
                        index == 1 + channel_bytes(channel_bitmask, i as nat).len(),
                        index <= 1 + i,
                        buffer@ == channel_message(b0, channel_bitmask, i as nat),
                    decreases 4 - i,
                {
                    proof {
                        assert(channel_bytes(channel_bitmask, i as nat + 1) == if channel_selected(channel_bitmask, i) {
                            channel_bytes(channel_bitmask, i as nat).push((i + 4) as u8)
                        } else {
                            channel_bytes(channel_bitmask, i as nat)
                        });
                    }
                    if channel_bitmask & (0x01 << i) != 0 {
                        // B2 B1 B0 are set starting at 0x04
                        buffer.set(index, i + 4);
                        index = index + 1;
                    }
                    i = i + 1;
                    assert(buffer@ =~= channel_message(b0, channel_bitmask, i as nat));
                }
                self.start(I2cOp::Write(buffer, index as u8), State::Done);
                ReturnCode::SUCCESS
            },
            None => ReturnCode::ENOMEM,
        }
    }

    /// Read the current interrupt fired mask.
    pub fn read_interrupts(&mut self) -> (r: ReturnCode)
        requires
            old(self)@.wf(),
        ensures
            (final(self)@, r) == after_read_control(old(self)@, ControlField::InterruptMask),
            final(self)@.wf(),
    {
        self.read_control(ControlField::InterruptMask)
    }

    /// Read the current selected channels.
    pub fn read_selected_channels(&mut self) -> (r: ReturnCode)
        requires
            old(self)@.wf(),
        ensures
            (final(self)@, r) == after_read_control(old(self)@, ControlField::SelectedChannels),
            final(self)@.wf(),
    {
        self.read_control(ControlField::SelectedChannels)
    }

    /// Just issuing a read to the selector reads its control register.
    pub fn read_control(&mut self, field: ControlField) -> (r: ReturnCode)
        requires
            old(self)@.wf(),
        ensures
            (final(self)@, r) == after_read_control(old(self)@, field),
            final(self)@.wf(),
    {
        match self.buffer.take() {
            Some(buffer) => {
                self.start(I2cOp::Read(buffer, 1), State::ReadControl(field));
                ReturnCode::SUCCESS
            },
            None => ReturnCode::ENOMEM,
        }
    }

    fn finish(&mut self, buffer: Vec<u8>, r0: usize, r1: usize)
        ensures
            final(self)@ == finished(old(self)@, buffer@, r0, r1),
    {
        match self.callback {
            Some(cb) => {
                let u = cb.schedule(r0, r1, 0);
                self.log(PcaOp::Upcall(u));
            },
            None => {},
        }
        self.buffer = Some(buffer);
        self.log(PcaOp::I2c(I2cOp::Disable));
        self.state = State::Idle;
        assert(self@.ops =~= finished(old(self)@, buffer@, r0, r1).ops);
    }

    /// The bus finished the transfer of the current state and hands
    /// `buffer` back: a read of the control register reports the field that
    /// was asked for (callback arguments: field number plus one, value), the
    /// end of a channel selection reports zeros.
    pub fn command_complete(&mut self, buffer: Vec<u8>, _error: Error)
        requires
            old(self)@.wf(),
            buffer@.len() >= 5,
        ensures
            final(self)@ == after_complete(old(self)@, buffer@),
            final(self)@.wf(),
    {
        match self.state {
            State::ReadControl(field) => {
                let ret = match field {
                    ControlField::InterruptMask => (buffer[0] >> 4) & 0x0F,
                    ControlField::SelectedChannels => buffer[0] & 0x07,
                };
                let number: usize = match field {
                    ControlField::InterruptMask => 0,
                    ControlField::SelectedChannels => 1,
                };
                self.finish(buffer, number + 1, ret as usize);
            },
            State::Done => {
                self.finish(buffer, 0, 0);
            },
            State::Idle => {},
        }
    }
}

impl Driver for PCA9544A {
    open spec fn driver_inv(&self) -> bool {
        self@.wf()
    }

    /// Subscription 0 sets the callback.
    fn subscribe(&mut self, subscribe_num: usize, callback: Callback) -> (r: isize)
        ensures
            subscribe_num == 0 ==> r == 0 && final(self)@ == (PcaView { callback: Some(callback@), ..old(self)@ }),
            subscribe_num != 0 ==> r == -1 && final(self)@ == old(self)@,
    {
        match subscribe_num {
            0 => {
                self.callback = Some(callback);
                0
            },
            // default
            _ => -1,
        }
    }

    /// Commands: 0 check if present, 1 select the channels of the low byte
    /// of `data`, 2 disable all channels, 3 read the interrupt fired mask, 4
    /// read the selected channels.  A started command answers 0, one that
    /// finds the buffer with the bus answers 9 (the negated ENOMEM).
    fn command(&mut self, command_num: usize, data: usize, _app: AppId) -> (r: isize)
        ensures
            (final(self)@, r) == after_command(old(self)@, command_num, data),
    {
        match command_num {
            // Check if present.
            0 => 0,
            // Select channels.
            1 => -self.select_channels(data as u8).value(),
            // Disable all channels.
            2 => -self.select_channels(0).value(),
            // Read the current interrupt fired mask.
            3 => -self.read_interrupts().value(),
            // Read the current selected channels.
            4 => -self.read_selected_channels().value(),
            // default
            _ => -1,
        }
    }
}

} // verus!
