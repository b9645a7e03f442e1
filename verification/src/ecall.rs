//! The firmware call convention: the shape of a call's arguments and the
//! meaning of the (status, value) pair that comes back.

use vstd::prelude::*;

verus! {

/// Status word with which the firmware reports a completed call.
pub const STATUS_SUCCESS: isize = 0;

/// Status word with which the firmware reports an I/O failure.
pub const STATUS_FAILED: isize = -1;

/// Status word with which the firmware rejects a malformed argument,
/// such as a buffer it may not access.
pub const STATUS_INVALID_PARAM: isize = -3;

/// The arguments of one firmware call: which extension and function to
/// invoke, and the three argument words handed to them.
#[derive(Clone, Copy, Debug, PartialEq, Eq, Structural)]
pub struct EcallRequest {
    pub extension_id: usize,
    pub function_id: usize,
    pub arg0: usize,
    pub arg1: usize,
    pub arg2: usize,
}

/// The errors a call can report: an I/O failure, a rejected argument,
/// and a catch-all for every other nonzero status word.
#[derive(Clone, Copy, Debug, PartialEq, Eq, Structural)]
pub enum SbiError {
    Failed,
    InvalidParam,
    Unsupported,
}

/// The error a nonzero status word stands for.
pub open spec fn error_of(status: int) -> SbiError {
    if status == STATUS_FAILED as int {
        SbiError::Failed
    } else if status == STATUS_INVALID_PARAM as int {
        SbiError::InvalidParam
    } else {
        SbiError::Unsupported
    }
}

/// What a (status, value) pair returned by the firmware means: the value
/// on success, the status word's error otherwise.
pub open spec fn decoded(status: int, value: usize) -> Result<usize, SbiError> {
    if status == 0 {
        Ok(value)
    } else {
        Err(error_of(status))
    }
}

/// Decode the (status, value) pair the firmware returned.
pub fn decode_status(status: isize, value: usize) -> (r: Result<usize, SbiError>)
    ensures
        r == decoded(status as int, value),
{
    if status == STATUS_SUCCESS {
        Ok(value)
    } else if status == STATUS_FAILED {
        Err(SbiError::Failed)
    } else if status == STATUS_INVALID_PARAM {
        Err(SbiError::InvalidParam)
    } else {
        Err(SbiError::Unsupported)
    }
}

} // verus!
