//! The debug console operations: writing one byte, writing a buffer and
//! reading into a buffer, each a single call into the console extension.

use crate::ecall::EcallRequest;
use crate::ecall::STATUS_FAILED;
use crate::ecall::SbiError;
use crate::ecall::decoded;
use crate::ecall::error_of;
use vstd::prelude::*;

verus! {

/// Identifier of the debug console extension.
pub const EXTENSION_ID: usize = 0x4442434e;

/// Function selector for writing a buffer.
pub const FID_WRITE: usize = 0;

/// Function selector for reading into a buffer.
pub const FID_READ: usize = 1;

/// Function selector for writing one byte.
pub const FID_WRITE_BYTE: usize = 2;

/// The call the byte-writing operation makes: the byte alone, widened
/// into the first argument word.
pub open spec fn byte_request(byte: u8) -> EcallRequest {
    EcallRequest {
        extension_id: EXTENSION_ID,
        function_id: FID_WRITE_BYTE,
        arg0: byte as usize,
        arg1: 0,
        arg2: 0,
    }
}

/// Build the call that writes one byte to the console.
pub fn write_byte_request(byte: u8) -> (r: EcallRequest)
    ensures
        r == byte_request(byte),
{
    EcallRequest {
        extension_id: EXTENSION_ID,
        function_id: FID_WRITE_BYTE,
        arg0: byte as usize,
        arg1: 0,
        arg2: 0,
    }
}

/// What the byte-writing operation returns for a given firmware status:
/// success exactly on status 0, the status word's error otherwise.
pub open spec fn byte_decoded(status: int) -> Result<(), SbiError> {
    if status == 0 {
        Ok(())
    } else {
        Err(error_of(status))
    }
}

/// Decode the status word the firmware returned for a byte write.
pub fn write_byte_outcome(status: isize) -> (r: Result<(), SbiError>)
    ensures
        r == byte_decoded(status as int),
{
    match crate::ecall::decode_status(status, 0) {
        Ok(_) => Ok(()),
        Err(e) => Err(e),
    }
}

/// What a buffer operation does next: issue the given firmware call, or
/// finish at once with the given result.
#[derive(Clone, Copy, Debug, PartialEq, Eq)]
pub enum Step {
    Call(EcallRequest),
    Done(Result<usize, SbiError>),
}

/// The call a buffer operation makes: the buffer's length in the first
/// argument word, then the low and high halves of its address.  The
/// address is one machine word here, so the high half is 0.
pub open spec fn buffer_request(function_id: usize, len: usize, addr: usize) -> EcallRequest {
    EcallRequest {
        extension_id: EXTENSION_ID,
        function_id: function_id,
        arg0: len,
        arg1: addr,
        arg2: 0,
    }
}

/// How a buffer operation begins: an empty buffer is already done, with
/// a count of 0 and no error and no firmware call; any other buffer
/// becomes one call carrying its length and address.
pub open spec fn buffer_plan(function_id: usize, len: usize, addr: usize) -> Step {
    if len == 0 {
        Step::Done(Ok(0))
    } else {
        Step::Call(buffer_request(function_id, len, addr))
    }
}

/// Begin writing `len` bytes at address `addr` to the console.  The
/// write does not block: the firmware may accept any prefix of the
/// buffer, and the value it returns on success is the count written.
pub fn write_step(len: usize, addr: usize) -> (r: Step)
    ensures
        r == buffer_plan(FID_WRITE, len, addr),
{
    buffer_step(FID_WRITE, len, addr)
}

/// Begin reading at most `len` bytes from the console into the buffer
/// at address `addr`.  The read does not block: the value the firmware
/// returns on success is the count read, 0 when nothing was pending.
pub fn read_step(len: usize, addr: usize) -> (r: Step)
    ensures
        r == buffer_plan(FID_READ, len, addr),
{
    buffer_step(FID_READ, len, addr)
}

fn buffer_step(function_id: usize, len: usize, addr: usize) -> (r: Step)
    ensures
        r == buffer_plan(function_id, len, addr),
{
    if len == 0 {
        Step::Done(Ok(0))
    } else {
        Step::Call(EcallRequest {
            extension_id: EXTENSION_ID,
            function_id: function_id,
            arg0: len,
            arg1: addr,
            arg2: 0,
        })
    }
}

/// When the firmware reports either completion or an I/O failure, the
/// byte write's outcome is success or the `Failed` error and nothing
/// else; the outcome never carries a count.
pub proof fn lemma_write_byte_success_or_failed(status: int)
    requires
        status == 0 || status == STATUS_FAILED as int,
    ensures
        byte_decoded(status) == Ok::<(), SbiError>(())
            || byte_decoded(status) == Err::<(), SbiError>(SbiError::Failed),
{
}

/// Status 0 decodes to success, and any nonzero status to an error,
/// never silently to success, in each of the three operations: the byte
/// write's outcome, and the shared decoding that the buffer write and
/// the buffer read use.
pub proof fn lemma_status_decides_success(status: int, value: usize)
    ensures
        (byte_decoded(status) is Ok) <==> status == 0,
        (decoded(status, value) is Ok) <==> status == 0,
{
}

/// A successful buffer write or read returns exactly the count the
/// firmware reported, so a count the firmware keeps within the length
/// it was offered stays within the buffer: at most `len` bytes are
/// written from it, or read into it.
pub proof fn lemma_count_bounded(status: int, value: usize, len: usize)
    requires
        value <= len,
    ensures
        decoded(status, value) matches Ok(count) ==> count <= len,
        status == 0 ==> decoded(status, value) == Ok::<usize, SbiError>(value),
{
}

/// A zero-length buffer handed to the write or the read operation is
/// complete at once: a count of 0, no error, and no firmware call.
pub proof fn lemma_empty_buffer_done(addr: usize)
    ensures
        buffer_plan(FID_WRITE, 0, addr) == Step::Done(Ok::<usize, SbiError>(0)),
        buffer_plan(FID_READ, 0, addr) == Step::Done(Ok::<usize, SbiError>(0)),
{
}

} // verus!
