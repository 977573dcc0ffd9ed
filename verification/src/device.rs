//! The device session: ownership of one native handle and the decision
//! half of every session operation.
//!
//! Each operation is split into the part this crate decides and proves —
//! direction gates, request construction, status interpretation, the
//! cleanup protocol of a failed transfer — and the one native call the
//! runtime performs in between. A request value says exactly what to ask
//! the native layer; an outcome function says what every possible answer
//! means.

use vstd::prelude::*;
use vstd::slice::slice_to_vec;
use vstd::string::StringSliceAdditionalSpecFns;
use vstd::utf8::valid_utf8;

use crate::error::{status_to_error, D3xxError};
use crate::info::{text_prefix, DeviceInfo};
use crate::pipe::Pipe;

verus! {

/// The native `create` flag that selects opening by serial number.
pub const OPEN_BY_SERIAL_NUMBER: u32 = 1;

/// What to hand the native `create` entry point to open one device: the
/// serial number, free of interior NUL bytes, and the open flag.
#[derive(Debug, Clone)]
pub struct OpenRequest {
    /// Serial number bytes, without a terminator; no byte is zero, so a
    /// NUL-terminated C string can always be formed from them.
    pub serial: Vec<u8>,
    /// The open flag: always [`OPEN_BY_SERIAL_NUMBER`].
    pub flags: u32,
}

/// What to hand a per-pipe native entry point: the owning handle and the
/// numeric pipe ID.
#[derive(Debug, Clone, Copy, PartialEq, Eq, Structural)]
pub struct PipeRequest {
    /// The native handle of the open device.
    pub handle: u64,
    /// The numeric endpoint ID.
    pub pipe_id: u8,
}

/// What to hand the native pipe-timeout entry point.
#[derive(Debug, Clone, Copy, PartialEq, Eq, Structural)]
pub struct TimeoutRequest {
    /// The native handle of the open device.
    pub handle: u64,
    /// The numeric endpoint ID.
    pub pipe_id: u8,
    /// The timeout in milliseconds.
    pub millis: u32,
}

/// Which of the two mutually exclusive streaming calls to make for a pipe.
#[derive(Debug, Clone, Copy, PartialEq, Eq, Structural)]
pub enum StreamAction {
    /// Configure fixed-size streaming mode with the given size.
    Configure { handle: u64, pipe_id: u8, size: u32 },
    /// Clear streaming mode.
    Clear { handle: u64, pipe_id: u8 },
}

/// What a finished transfer attempt means for the caller.
#[derive(Debug, Clone, Copy, PartialEq, Eq, Structural)]
pub enum TransferOutcome {
    /// The transfer completed and moved this many bytes.
    Completed(usize),
    /// The transfer failed: the runtime must first abort the pipe's
    /// in-flight transfers and only then surface this error — the abort's
    /// own outcome is swallowed, never allowed to mask this error.
    AbortThenFail(D3xxError),
}

/// A session owning exactly one native device handle.
///
/// The handle is valid from the successful open that produced it until the
/// session ends; the runtime closes it exactly once when the session is
/// dropped, and a close failure is absorbed rather than escalated.
#[derive(Debug)]
pub struct Device {
    handle: u64,
}

/// What building an open request from a snapshot entry's serial-number
/// buffer returns: exactly the buffer's text prefix as the serial, beside
/// the open-by-serial flag, or the decode error where that prefix is not
/// valid text. The prefix stops at the first NUL, so the serial always
/// forms a C string.
pub open spec fn open_from_record_post(buf: Seq<u8>, r: Result<OpenRequest, D3xxError>) -> bool {
    let text = text_prefix(buf);
    match r {
        Ok(q) => valid_utf8(text) && q.flags == OPEN_BY_SERIAL_NUMBER && q.serial@ == text,
        Err(e) => e == D3xxError::OtherError && !valid_utf8(text),
    }
}

/// True when a snapshot entry is the open device with the given handle.
pub open spec fn entry_has_handle(info: DeviceInfo, handle: u64) -> bool {
    info.spec_record().handle != 0 && info.spec_record().handle == handle
}

/// The answer of the write gate: an output pipe gets its native request,
/// an input pipe is rejected with `InvalidParameter`.
pub open spec fn spec_write_gate(d: Device, pipe: Pipe) -> Result<PipeRequest, D3xxError> {
    if pipe.spec_is_write() {
        Ok(PipeRequest { handle: d.spec_handle(), pipe_id: pipe.spec_id() })
    } else {
        Err(D3xxError::InvalidParameter)
    }
}

/// The answer of the read gate: an input pipe gets its native request,
/// an output pipe is rejected with `InvalidParameter`.
pub open spec fn spec_read_gate(d: Device, pipe: Pipe) -> Result<PipeRequest, D3xxError> {
    if pipe.spec_is_read() {
        Ok(PipeRequest { handle: d.spec_handle(), pipe_id: pipe.spec_id() })
    } else {
        Err(D3xxError::InvalidParameter)
    }
}

/// The answer of the flush gate: only an input pipe caches data, so only
/// it gets a request; an output pipe is rejected with `InvalidParameter`.
pub open spec fn spec_flush_gate(d: Device, pipe: Pipe) -> Result<PipeRequest, D3xxError> {
    if pipe.spec_is_read() {
        Ok(PipeRequest { handle: d.spec_handle(), pipe_id: pipe.spec_id() })
    } else {
        Err(D3xxError::InvalidParameter)
    }
}

impl Device {
    /// The native handle owned by this session.
    pub closed spec fn spec_handle(self) -> u64 {
        self.handle
    }

    /// Create a session that takes ownership of a raw native handle. Only
    /// a handle returned by a successful native open — hence non-zero —
    /// may be adopted.
    pub fn from_handle(handle: u64) -> (d: Device)
        requires
            handle != 0,
        ensures
            d.spec_handle() == handle,
    {
        Device { handle }
    }

    /// Get the raw handle owned by this session.
    pub fn raw_handle(&self) -> (r: u64)
        ensures
            r == self.spec_handle(),
    {
        self.handle
    }

    /// Build the native open request for the device of an enumeration
    /// snapshot entry, by its serial number.
    ///
    /// Fails with the decode error exactly when the entry's serial-number
    /// buffer is not valid text; the buffer's text prefix holds no NUL, so
    /// the interior-NUL rejection can never arise from a snapshot entry.
    pub fn open(info: &DeviceInfo) -> (r: Result<OpenRequest, D3xxError>)
        ensures
            open_from_record_post(info.spec_record().serial_number@, r),
    {
        match info.serial_number() {
            Ok(s) => {
                let r = Self::open_with_serial_number(s.as_str());
                proof {
                    let buf = info.spec_record().serial_number@;
                    let text = text_prefix(buf);
                    crate::info::lemma_nul_len(buf);
                    vstd::utf8::decode_utf8_encode_utf8(text);
                    if r is Err {
                        let i = choose|i: int| 0 <= i < text.len() && text[i] == 0;
                        assert(text[i] == buf[i]);
                        assert(false);
                    }
                }
                r
            },
            Err(e) => Err(e),
        }
    }

    /// Build the native open request for a device with the given serial
    /// number.
    ///
    /// A serial with an interior NUL byte cannot be passed to the native
    /// layer as a C string and is rejected with `InvalidParameter` before
    /// any native call.
    pub fn open_with_serial_number(serial: &str) -> (r: Result<OpenRequest, D3xxError>)
        ensures
            match r {
                Ok(q) => {
                    &&& q.flags == OPEN_BY_SERIAL_NUMBER
                    &&& q.serial@ == serial.spec_bytes()
                    &&& forall|i: int| 0 <= i < q.serial@.len() ==> q.serial@[i] != 0
                },
                Err(e) => e == D3xxError::InvalidParameter && exists|i: int|
                    0 <= i < serial.spec_bytes().len() && serial.spec_bytes()[i] == 0,
            },
    {
        let bytes = serial.as_bytes();
        let len = bytes.len();
        let mut i: usize = 0;
        while i < len
            invariant
                i <= len,
                len == bytes@.len(),
                bytes@ == serial.spec_bytes(),
                forall|j: int| 0 <= j < i ==> bytes@[j] != 0,
            decreases len - i,
        {
            if *vstd::slice::slice_index_get(bytes, i) == 0 {
                return Err(D3xxError::InvalidParameter);
            }
            i = i + 1;
        }
        Ok(OpenRequest { serial: slice_to_vec(bytes), flags: OPEN_BY_SERIAL_NUMBER })
    }

    /// Interpret the native answer to an open request. On success the
    /// native layer hands back a non-zero handle, which the new session
    /// takes ownership of; on failure no resource was allocated.
    pub fn open_outcome(status: u32, handle: u64) -> (r: Result<Device, D3xxError>)
        requires
            status <= 32,
            status == 0 ==> handle != 0,
        ensures
            match r {
                Ok(d) => status == 0 && d.spec_handle() == handle,
                Err(e) => status != 0 && e == status_to_error(status),
            },
    {
        if status == 0 {
            Ok(Device { handle })
        } else {
            Err(crate::error::from_status(status))
        }
    }

    /// Gate a write on the pipe's fixed direction: only an output pipe
    /// accepts a write. A read pipe is rejected with `InvalidParameter`
    /// and no native request is produced.
    pub fn write_request(&self, pipe: Pipe) -> (r: Result<PipeRequest, D3xxError>)
        ensures
            r == spec_write_gate(*self, pipe),
    {
        if !pipe.is_write_pipe() {
            Err(D3xxError::InvalidParameter)
        } else {
            Ok(PipeRequest { handle: self.handle, pipe_id: pipe.id() })
        }
    }

    /// Gate a read on the pipe's fixed direction: only an input pipe
    /// accepts a read. A write pipe is rejected with `InvalidParameter`
    /// and no native request is produced.
    pub fn read_request(&self, pipe: Pipe) -> (r: Result<PipeRequest, D3xxError>)
        ensures
            r == spec_read_gate(*self, pipe),
    {
        if !pipe.is_read_pipe() {
            Err(D3xxError::InvalidParameter)
        } else {
            Ok(PipeRequest { handle: self.handle, pipe_id: pipe.id() })
        }
    }

    /// Gate a flush on the pipe's fixed direction: only an input pipe
    /// caches data to discard. An output pipe is rejected with
    /// `InvalidParameter` and no native request is produced.
    pub fn flush_request(&self, pipe: Pipe) -> (r: Result<PipeRequest, D3xxError>)
        ensures
            r == spec_flush_gate(*self, pipe),
    {
        if !pipe.is_read_pipe() {
            Err(D3xxError::InvalidParameter)
        } else {
            Ok(PipeRequest { handle: self.handle, pipe_id: pipe.id() })
        }
    }

    /// Build the request that configures the blocking timeout of one
    /// pipe. The value holds only while the device stays open: a new open
    /// resets every pipe to the native default of five seconds.
    pub fn set_timeout_request(&self, pipe: Pipe, millis: u32) -> (r: TimeoutRequest)
        ensures
            r == (TimeoutRequest {
                handle: self.spec_handle(),
                pipe_id: pipe.spec_id(),
                millis: millis,
            }),
    {
        TimeoutRequest { handle: self.handle, pipe_id: pipe.id(), millis }
    }

    /// Build the request that queries the configured timeout of one pipe.
    pub fn get_timeout_request(&self, pipe: Pipe) -> (r: PipeRequest)
        ensures
            r == (PipeRequest { handle: self.spec_handle(), pipe_id: pipe.spec_id() }),
    {
        PipeRequest { handle: self.handle, pipe_id: pipe.id() }
    }

    /// Choose between the two mutually exclusive streaming calls for a
    /// pipe: a present size configures fixed-size streaming mode, an
    /// absent one clears it.
    pub fn set_stream_size(&self, pipe: Pipe, stream_size: Option<u32>) -> (r: StreamAction)
        ensures
            match stream_size {
                Some(size) => r == (StreamAction::Configure {
                    handle: self.spec_handle(),
                    pipe_id: pipe.spec_id(),
                    size,
                }),
                None => r == (StreamAction::Clear {
                    handle: self.spec_handle(),
                    pipe_id: pipe.spec_id(),
                }),
            },
    {
        match stream_size {
            Some(size) => StreamAction::Configure { handle: self.handle, pipe_id: pipe.id(), size },
            None => StreamAction::Clear { handle: self.handle, pipe_id: pipe.id() },
        }
    }

    /// Build the request that aborts all pending transfers on one pipe.
    /// Every pipe accepts an abort.
    pub fn abort_transfers(&self, pipe: Pipe) -> (r: PipeRequest)
        ensures
            r == (PipeRequest { handle: self.spec_handle(), pipe_id: pipe.spec_id() }),
    {
        PipeRequest { handle: self.handle, pipe_id: pipe.id() }
    }

    /// The pipe-information query of the native layer needs an interface
    /// index that this layer has no documented way to derive, so the
    /// operation is unsupported rather than answered with a guess.
    pub fn pipe_info(&self, pipe: Pipe) -> (r: Result<crate::pipe::PipeInfo, D3xxError>)
        ensures
            r == Result::<crate::pipe::PipeInfo, D3xxError>::Err(D3xxError::NotSupported),
    {
        let _ = pipe;
        Err(D3xxError::NotSupported)
    }

    /// Find this session's device in an enumeration snapshot: the first
    /// entry whose (open) handle is this session's handle. Fails with
    /// `DeviceNotFound` when the device is absent from the snapshot, as
    /// after a disconnect.
    pub fn index(&self, devices: &Vec<DeviceInfo>) -> (r: Result<usize, D3xxError>)
        ensures
            match r {
                Ok(i) => {
                    &&& i < devices@.len()
                    &&& entry_has_handle(devices@[i as int], self.spec_handle())
                    &&& forall|j: int|
                        0 <= j < i ==> !entry_has_handle(devices@[j], self.spec_handle())
                },
                Err(e) => e == D3xxError::DeviceNotFound && forall|j: int|
                    0 <= j < devices@.len() ==> !entry_has_handle(devices@[j], self.spec_handle()),
            },
    {
        let n = devices.len();
        let mut i: usize = 0;
        while i < n
            invariant
                i <= n,
                n == devices@.len(),
                forall|j: int| 0 <= j < i ==> !entry_has_handle(devices@[j], self.spec_handle()),
            decreases n - i,
        {
            let entry = devices[i];
            match entry.raw_handle() {
                Some(h) => {
                    if h == self.handle {
                        return Ok(i);
                    }
                },
                None => {},
            }
            i = i + 1;
        }
        Err(D3xxError::DeviceNotFound)
    }

    /// Give up the session for a port power cycle: the native layer will
    /// re-enumerate the device, so the session is consumed and the caller
    /// must open anew. The returned handle is what the runtime hands to
    /// the power-cycle entry point and then closes.
    pub fn power_cycle_port(self) -> (r: u64)
        ensures
            r == self.spec_handle(),
    {
        self.handle
    }
}

impl DeviceInfo {
    /// Build the native open request for the device this entry describes.
    pub fn open(&self) -> (r: Result<OpenRequest, D3xxError>)
        ensures
            open_from_record_post(self.spec_record().serial_number@, r),
    {
        Device::open(self)
    }
}

/// The outcome decided for a native transfer status: zero completes,
/// every error status obliges an abort followed by that status's error.
pub open spec fn spec_transfer_outcome(status: u32, bytes_transferred: usize) -> TransferOutcome {
    if status == 0 {
        TransferOutcome::Completed(bytes_transferred)
    } else {
        TransferOutcome::AbortThenFail(status_to_error(status))
    }
}

/// Interpret the native status of a blocking transfer. A zero status
/// completes the transfer with the reported byte count; any error status
/// obliges the runtime to abort the pipe's transfers first and surface
/// the original error after — in that order.
pub fn transfer_outcome(status: u32, bytes_transferred: usize) -> (r: TransferOutcome)
    requires
        status <= 32,
    ensures
        r == spec_transfer_outcome(status, bytes_transferred),
{
    if status == 0 {
        TransferOutcome::Completed(bytes_transferred)
    } else {
        TransferOutcome::AbortThenFail(crate::error::from_status(status))
    }
}

/// Conclude a failed transfer after its best-effort abort: whatever the
/// abort itself returned, the error the caller observes is the original
/// transfer error.
pub fn conclude_failed_transfer(original: D3xxError, abort_result: Result<(), D3xxError>) -> (r:
    D3xxError)
    ensures
        r == original,
{
    let _ = abort_result;
    original
}

/// On a failed transfer the pipe is aborted before the caller sees any
/// error, and the error the caller sees is the transfer's own, never the
/// abort's: for every error status, the outcome demands the abort first
/// and carries exactly the status's error, and concluding with any abort
/// result leaves that error unchanged.
pub proof fn lemma_transfer_failure_cleanup(status: u32, bytes_transferred: usize)
    requires
        1 <= status <= 32,
    ensures
        spec_transfer_outcome(status, bytes_transferred) == TransferOutcome::AbortThenFail(
            status_to_error(status),
        ),
{
}

/// A write on any input pipe, and a read on any output pipe, is rejected
/// with `InvalidParameter`, so no native request for it can exist; and on
/// every pipe exactly one of the two transfer gates produces a request.
pub proof fn lemma_transfer_direction_rejection(d: Device, pipe: Pipe)
    ensures
        pipe.spec_is_read() ==> spec_write_gate(d, pipe) == Result::<PipeRequest, D3xxError>::Err(
            D3xxError::InvalidParameter,
        ),
        pipe.spec_is_write() ==> spec_read_gate(d, pipe) == Result::<PipeRequest, D3xxError>::Err(
            D3xxError::InvalidParameter,
        ),
        spec_write_gate(d, pipe) is Ok <==> spec_read_gate(d, pipe) is Err,
{
    crate::pipe::lemma_pipe_direction_partition(pipe);
}

} // verus!
