//! Host-side access layer for FT600/FT601 USB bulk-transfer controllers.
//!
//! The native D3XX driver is reached through a dynamically loaded library.
//! This crate holds everything that can be decided without touching that
//! library: the status-code taxonomy, the fixed pipe catalog, bit-field
//! marshalling of versions, identifiers and descriptors, the load-once and
//! bind-once state machines, and the per-operation request/outcome logic of
//! a device session. A thin runtime around this crate performs the actual
//! dynamic loading and the C calls, feeding their plain results back in.

pub mod descriptor;
pub mod device;
pub mod error;
pub mod info;
pub mod loader;
pub mod pipe;
pub mod version;

pub use descriptor::DeviceDescriptor;
pub use device::{
    conclude_failed_transfer, transfer_outcome, Device, OpenRequest, PipeRequest, StreamAction,
    TimeoutRequest, TransferOutcome, OPEN_BY_SERIAL_NUMBER,
};
pub use error::D3xxError;
pub use info::{list_devices, DeviceInfo, DeviceRecord, MAX_DEVICES};
pub use loader::{EntryPoint, LoadOutcome, LoaderState, SymbolSlot};
pub use pipe::{Pipe, PipeInfo, PipeType};
pub use version::Version;

use vstd::prelude::*;

verus! {

/// Check if the D3XX driver layer is available on this system: true
/// exactly when the device-count query it rests on succeeded.
pub fn d3xx_available(count_result: &Result<u32, error::D3xxError>) -> (r: bool)
    ensures
        r == (count_result is Ok),
{
    count_result.is_ok()
}

} // verus!
