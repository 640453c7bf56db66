use vstd::prelude::*;

verus! {

/// How an I2C transaction ended.
#[derive(Clone, Copy, PartialEq, Eq, Structural, Debug)]
pub enum Error {
    AddressNak,
    DataNak,
    ArbitrationLost,
    CommandComplete,
}

/// An operation that a driver asks of its I2C device.  A transfer hands the
/// buffer over to the bus; it comes back with the completion event.
#[derive(Debug, PartialEq, Eq)]
pub enum I2cOp {
    /// Turn the bus on.
    Enable,
    /// Turn the bus off.
    Disable,
    /// Write the first `len` bytes of the buffer.
    Write(Vec<u8>, u8),
    /// Read `len` bytes into the start of the buffer.
    Read(Vec<u8>, u8),
    /// Write `write_len` bytes, then read `read_len` bytes into the start of
    /// the buffer.
    WriteRead(Vec<u8>, u8, u8),
}

/// The abstract form of an I2C operation: buffers are taken by their
/// contents.
pub ghost enum I2cAction {
    Enable,
    Disable,
    Write(Seq<u8>, u8),
    Read(Seq<u8>, u8),
    WriteRead(Seq<u8>, u8, u8),
}

impl View for I2cOp {
    type V = I2cAction;

    open spec fn view(&self) -> I2cAction {
        match self {
            I2cOp::Enable => I2cAction::Enable,
            I2cOp::Disable => I2cAction::Disable,
            I2cOp::Write(b, n) => I2cAction::Write(b@, *n),
            I2cOp::Read(b, n) => I2cAction::Read(b@, *n),
            I2cOp::WriteRead(b, w, r) => I2cAction::WriteRead(b@, *w, *r),
        }
    }
}

} // verus!
