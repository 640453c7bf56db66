use vstd::prelude::*;
use crate::returncode::ReturnCode;

verus! {

/// A nine degrees of freedom sensor (accelerometer, magnetometer,
/// gyroscope).
pub trait NineDof {
    fn set_client(&self, client: &'static dyn NineDofClient);

    /// Start an accelerometer reading; a sensor that has none fails.
    fn read_accelerometer(&self) -> (r: ReturnCode)
        default_ensures
            r == ReturnCode::FAIL,
    {
        ReturnCode::FAIL
    }

    /// Start a magnetometer reading; a sensor that has none fails.
    fn read_magnetometer(&self) -> (r: ReturnCode)
        default_ensures
            r == ReturnCode::FAIL,
    {
        ReturnCode::FAIL
    }
}

/// Receives the readings of a nine degrees of freedom sensor.
pub trait NineDofClient {
    fn callback(&self, arg1: usize, arg2: usize, arg3: usize);
}

} // verus!
