use vstd::prelude::*;

verus! {

/// Status codes returned by kernel operations.  The numeric value that a
/// code stands for in a system call return is given by `value`.
#[allow(non_camel_case_types)]
#[derive(Clone, Copy, PartialEq, Eq, Structural, Debug)]
pub enum ReturnCode {
    SUCCESS,
    FAIL,
    EBUSY,
    EALREADY,
    EOFF,
    ERESERVE,
    EINVAL,
    ESIZE,
    ECANCEL,
    ENOMEM,
    ENOSUPPORT,
    ENODEVICE,
    EUNINSTALLED,
    ENOACK,
}

/// The system call value of a return code: zero for success, a small
/// negative number for each error.
pub open spec fn return_code_value(rc: ReturnCode) -> int {
    match rc {
        ReturnCode::SUCCESS => 0,
        ReturnCode::FAIL => -1,
        ReturnCode::EBUSY => -2,
        ReturnCode::EALREADY => -3,
        ReturnCode::EOFF => -4,
        ReturnCode::ERESERVE => -5,
        ReturnCode::EINVAL => -6,
        ReturnCode::ESIZE => -7,
        ReturnCode::ECANCEL => -8,
        ReturnCode::ENOMEM => -9,
        ReturnCode::ENOSUPPORT => -10,
        ReturnCode::ENODEVICE => -11,
        ReturnCode::EUNINSTALLED => -12,
        ReturnCode::ENOACK => -13,
    }
}

impl ReturnCode {
    /// The numeric value of this code.
    pub fn value(self) -> (r: isize)
        ensures
            r == return_code_value(self),
            -13 <= r <= 0,
    {
        match self {
            ReturnCode::SUCCESS => 0,
            ReturnCode::FAIL => -1,
            ReturnCode::EBUSY => -2,
            ReturnCode::EALREADY => -3,
            ReturnCode::EOFF => -4,
            ReturnCode::ERESERVE => -5,
            ReturnCode::EINVAL => -6,
            ReturnCode::ESIZE => -7,
            ReturnCode::ECANCEL => -8,
            ReturnCode::ENOMEM => -9,
            ReturnCode::ENOSUPPORT => -10,
            ReturnCode::ENODEVICE => -11,
            ReturnCode::EUNINSTALLED => -12,
            ReturnCode::ENOACK => -13,
        }
    }
}

} // verus!
