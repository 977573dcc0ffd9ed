//! The load-once and bind-once state machines of the native-library layer.
//!
//! The process holds one native-library slot and, per entry point, one
//! symbol slot. This module decides every transition of those slots; the
//! runtime around the crate performs the dynamic loading and the symbol
//! lookups and reports each outcome back as a plain event.

use vstd::prelude::*;

use crate::error::D3xxError;

verus! {

/// The state of the process-wide native-library slot.
#[derive(Debug, Clone, Copy, PartialEq, Eq, Structural)]
pub enum LoaderState {
    /// No load has succeeded yet.
    NotLoaded,
    /// A load has succeeded; the slot is populated for the process lifetime.
    Loaded,
}

/// What the runtime observed while it attempted one load.
#[derive(Debug, Clone, Copy, PartialEq, Eq, Structural)]
pub enum LoadOutcome {
    /// The dynamic library was loaded and stored.
    NativeLoaded,
    /// The dynamic loader failed on the given path.
    NativeLoadFailed,
    /// Writing the bundled copy of the library onto disk failed.
    ExtractionFailed,
}

/// True once the native library is loaded.
pub open spec fn is_loaded(st: LoaderState) -> bool {
    st is Loaded
}

/// The transition of the library slot on one load attempt: a populated
/// slot refuses every further attempt and keeps its value; an empty slot
/// is populated exactly by a successful load, and each failure kind maps
/// to its boundary error.
pub open spec fn load_step(st: LoaderState, outcome: LoadOutcome) -> (LoaderState, Result<
    (),
    D3xxError,
>) {
    if is_loaded(st) {
        (st, Err(D3xxError::LibraryAlreadyLoaded))
    } else {
        match outcome {
            LoadOutcome::NativeLoaded => (LoaderState::Loaded, Ok(())),
            LoadOutcome::NativeLoadFailed => (LoaderState::NotLoaded, Err(
                D3xxError::LibraryAccessFailed,
            )),
            LoadOutcome::ExtractionFailed => (LoaderState::NotLoaded, Err(
                D3xxError::UnpackingFailed,
            )),
        }
    }
}

/// The answer every component gets when it asks for the library: the
/// loaded handle stands behind `Ok`, and before any successful load the
/// answer is `LibraryNotLoaded`.
pub open spec fn library_gate(st: LoaderState) -> Result<(), D3xxError> {
    if is_loaded(st) {
        Ok(())
    } else {
        Err(D3xxError::LibraryNotLoaded)
    }
}

/// True while a load attempt may still proceed: the runtime asks this
/// before it touches the filesystem or the dynamic loader.
pub fn can_load(st: &LoaderState) -> (r: bool)
    ensures
        r == !is_loaded(*st),
{
    match st {
        LoaderState::NotLoaded => true,
        LoaderState::Loaded => false,
    }
}

/// Apply one load attempt to the library slot.
pub fn apply_load(st: &mut LoaderState, outcome: LoadOutcome) -> (r: Result<(), D3xxError>)
    ensures
        (*final(st), r) == load_step(*old(st), outcome),
{
    match st {
        LoaderState::Loaded => Err(D3xxError::LibraryAlreadyLoaded),
        LoaderState::NotLoaded => match outcome {
            LoadOutcome::NativeLoaded => {
                *st = LoaderState::Loaded;
                Ok(())
            },
            LoadOutcome::NativeLoadFailed => Err(D3xxError::LibraryAccessFailed),
            LoadOutcome::ExtractionFailed => Err(D3xxError::UnpackingFailed),
        },
    }
}

/// Ask for the loaded library on behalf of an operation that needs it.
pub fn require_loaded(st: &LoaderState) -> (r: Result<(), D3xxError>)
    ensures
        r == library_gate(*st),
{
    match st {
        LoaderState::Loaded => Ok(()),
        LoaderState::NotLoaded => Err(D3xxError::LibraryNotLoaded),
    }
}

/// The library slot is written at most once. After a successful load every
/// further attempt fails with `LibraryAlreadyLoaded` and leaves the slot as
/// it is; an attempt succeeds exactly when it populates the slot; a
/// populated slot never empties; and before any successful load, every
/// operation that needs the library is answered with `LibraryNotLoaded`.
pub proof fn lemma_load_once(st: LoaderState, outcome: LoadOutcome)
    ensures
        is_loaded(st) ==> load_step(st, outcome) == (st, Result::<(), D3xxError>::Err(
            D3xxError::LibraryAlreadyLoaded,
        )),
        load_step(st, outcome).1 is Ok <==> (!is_loaded(st) && outcome
            == LoadOutcome::NativeLoaded),
        load_step(st, outcome).1 is Ok <==> (!is_loaded(st) && is_loaded(
            load_step(st, outcome).0,
        )),
        is_loaded(st) ==> is_loaded(load_step(st, outcome).0),
        !is_loaded(st) ==> library_gate(st) == Result::<(), D3xxError>::Err(
            D3xxError::LibraryNotLoaded,
        ),
{
}

/// The state of the one-time binding slot of a single native entry point.
#[derive(Debug, Clone, Copy, PartialEq, Eq, Structural)]
pub enum SymbolSlot {
    /// The entry point has not been resolved yet.
    Unresolved,
    /// The entry point is resolved and cached for the process lifetime.
    Resolved,
}

/// The transition of one binding slot on one invocation. A resolved slot
/// answers from its cache and is left alone; an unresolved slot needs the
/// library, and is populated exactly when the lookup found the name. A
/// name absent from the loaded library makes the library unusable, which
/// is reported as the load-layer failure.
pub open spec fn bind_step(lib: LoaderState, slot: SymbolSlot, found: bool) -> (SymbolSlot, Result<
    (),
    D3xxError,
>) {
    if slot is Resolved {
        (slot, Ok(()))
    } else if !is_loaded(lib) {
        (slot, Err(D3xxError::LibraryNotLoaded))
    } else if found {
        (SymbolSlot::Resolved, Ok(()))
    } else {
        (slot, Err(D3xxError::LibraryAccessFailed))
    }
}

/// Apply one invocation to an entry point's binding slot. `found` reports
/// whether the runtime's symbol lookup located the name; it is consulted
/// only on the first resolution of an unresolved slot with the library
/// loaded.
pub fn resolve_symbol(lib: &LoaderState, slot: &mut SymbolSlot, found: bool) -> (r: Result<
    (),
    D3xxError,
>)
    ensures
        (*final(slot), r) == bind_step(*lib, *old(slot), found),
{
    match slot {
        SymbolSlot::Resolved => Ok(()),
        SymbolSlot::Unresolved => match lib {
            LoaderState::NotLoaded => Err(D3xxError::LibraryNotLoaded),
            LoaderState::Loaded => {
                if found {
                    *slot = SymbolSlot::Resolved;
                    Ok(())
                } else {
                    Err(D3xxError::LibraryAccessFailed)
                }
            },
        },
    }
}

/// Each binding slot is written at most once and resolution is idempotent:
/// a resolved slot stays resolved and keeps answering success whatever the
/// later lookups report, a slot is populated exactly by a successful first
/// resolution, and no slot resolves before the library is loaded.
pub proof fn lemma_bind_once(lib: LoaderState, slot: SymbolSlot, found: bool)
    ensures
        slot is Resolved ==> bind_step(lib, slot, found) == (slot, Result::<(), D3xxError>::Ok(())),
        bind_step(lib, slot, found).0 is Resolved <==> (bind_step(lib, slot, found).1 is Ok),
        bind_step(lib, slot, found).1 is Ok ==> (slot is Resolved || is_loaded(lib)),
        !is_loaded(lib) && slot is Unresolved ==> bind_step(lib, slot, found) == (
            slot,
            Result::<(), D3xxError>::Err(D3xxError::LibraryNotLoaded),
        ),
{
}

/// The fixed catalog of native entry points this layer binds. Each has
/// one independent binding slot for the process lifetime.
#[derive(Debug, Clone, Copy, PartialEq, Eq, Structural)]
pub enum EntryPoint {
    /// Count or list the attached devices.
    ListDevices,
    /// Rebuild the native device info list.
    CreateDeviceInfoList,
    /// Fetch the native device info list.
    GetDeviceInfoList,
    /// Fetch one entry of the native device info list.
    GetDeviceInfoDetail,
    /// Open a device.
    Create,
    /// Close a device handle.
    Close,
    /// Query the kernel driver version.
    GetDriverVersion,
    /// Blocking write on a pipe.
    WritePipeEx,
    /// Blocking read on a pipe.
    ReadPipe,
    /// Blocking read on a pipe, extended form.
    ReadPipeEx,
    /// Discard data cached in an input pipe.
    FlushPipe,
    /// Configure the blocking timeout of a pipe.
    SetPipeTimeout,
    /// Query the blocking timeout of a pipe.
    GetPipeTimeout,
    /// Query the vendor and product ID of an open device.
    GetVidPid,
    /// Query the USB device descriptor.
    GetDeviceDescriptor,
    /// Configure fixed-size streaming mode on a pipe.
    SetStreamPipe,
    /// Clear fixed-size streaming mode on a pipe.
    ClearStreamPipe,
    /// Abort all pending transfers on a pipe.
    AbortPipe,
    /// Power cycle the device port.
    CycleDevicePort,
    /// Query pipe information.
    GetPipeInformation,
    /// Query the library version.
    GetLibraryVersion,
}

impl EntryPoint {
    /// The exact C symbol name this entry point resolves under.
    pub open spec fn spec_symbol_name(self) -> Seq<char> {
        match self {
            EntryPoint::ListDevices => "FT_ListDevices"@,
            EntryPoint::CreateDeviceInfoList => "FT_CreateDeviceInfoList"@,
            EntryPoint::GetDeviceInfoList => "FT_GetDeviceInfoList"@,
            EntryPoint::GetDeviceInfoDetail => "FT_GetDeviceInfoDetail"@,
            EntryPoint::Create => "FT_Create"@,
            EntryPoint::Close => "FT_Close"@,
            EntryPoint::GetDriverVersion => "FT_GetDriverVersion"@,
            EntryPoint::WritePipeEx => "FT_WritePipeEx"@,
            EntryPoint::ReadPipe => "FT_ReadPipe"@,
            EntryPoint::ReadPipeEx => "FT_ReadPipeEx"@,
            EntryPoint::FlushPipe => "FT_FlushPipe"@,
            EntryPoint::SetPipeTimeout => "FT_SetPipeTimeout"@,
            EntryPoint::GetPipeTimeout => "FT_GetPipeTimeout"@,
            EntryPoint::GetVidPid => "FT_GetVIDPID"@,
            EntryPoint::GetDeviceDescriptor => "FT_GetDeviceDescriptor"@,
            EntryPoint::SetStreamPipe => "FT_SetStreamPipe"@,
            EntryPoint::ClearStreamPipe => "FT_ClearStreamPipe"@,
            EntryPoint::AbortPipe => "FT_AbortPipe"@,
            EntryPoint::CycleDevicePort => "FT_CycleDevicePort"@,
            EntryPoint::GetPipeInformation => "FT_GetPipeInformation"@,
            EntryPoint::GetLibraryVersion => "FT_GetLibraryVersion"@,
        }
    }

    /// The C symbol name under which the runtime resolves this entry
    /// point from the loaded library.
    pub fn symbol_name(&self) -> (r: String)
        ensures
            r@ == self.spec_symbol_name(),
    {
        let s: &str = match self {
            EntryPoint::ListDevices => "FT_ListDevices",
            EntryPoint::CreateDeviceInfoList => "FT_CreateDeviceInfoList",
            EntryPoint::GetDeviceInfoList => "FT_GetDeviceInfoList",
            EntryPoint::GetDeviceInfoDetail => "FT_GetDeviceInfoDetail",
            EntryPoint::Create => "FT_Create",
            EntryPoint::Close => "FT_Close",
            EntryPoint::GetDriverVersion => "FT_GetDriverVersion",
            EntryPoint::WritePipeEx => "FT_WritePipeEx",
            EntryPoint::ReadPipe => "FT_ReadPipe",
            EntryPoint::ReadPipeEx => "FT_ReadPipeEx",
            EntryPoint::FlushPipe => "FT_FlushPipe",
            EntryPoint::SetPipeTimeout => "FT_SetPipeTimeout",
            EntryPoint::GetPipeTimeout => "FT_GetPipeTimeout",
            EntryPoint::GetVidPid => "FT_GetVIDPID",
            EntryPoint::GetDeviceDescriptor => "FT_GetDeviceDescriptor",
            EntryPoint::SetStreamPipe => "FT_SetStreamPipe",
            EntryPoint::ClearStreamPipe => "FT_ClearStreamPipe",
            EntryPoint::AbortPipe => "FT_AbortPipe",
            EntryPoint::CycleDevicePort => "FT_CycleDevicePort",
            EntryPoint::GetPipeInformation => "FT_GetPipeInformation",
            EntryPoint::GetLibraryVersion => "FT_GetLibraryVersion",
        };
        s.to_owned()
    }
}

} // verus!
