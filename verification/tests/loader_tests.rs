use ft60x::error::D3xxError;
use ft60x::loader::{
    apply_load, can_load, require_loaded, resolve_symbol, EntryPoint, LoadOutcome, LoaderState,
    SymbolSlot,
};

#[test]
fn load_once_invariant() {
    let mut st = LoaderState::NotLoaded;
    assert!(can_load(&st));
    assert_eq!(require_loaded(&st), Err(D3xxError::LibraryNotLoaded));

    assert_eq!(apply_load(&mut st, LoadOutcome::NativeLoaded), Ok(()));
    assert_eq!(st, LoaderState::Loaded);
    assert_eq!(require_loaded(&st), Ok(()));

    // Every further attempt fails, whatever it would have observed.
    assert_eq!(
        apply_load(&mut st, LoadOutcome::NativeLoaded),
        Err(D3xxError::LibraryAlreadyLoaded)
    );
    assert_eq!(
        apply_load(&mut st, LoadOutcome::NativeLoadFailed),
        Err(D3xxError::LibraryAlreadyLoaded)
    );
    assert_eq!(st, LoaderState::Loaded);
    assert!(!can_load(&st));
}

#[test]
fn failed_loads_leave_slot_empty() {
    let mut st = LoaderState::NotLoaded;
    assert_eq!(
        apply_load(&mut st, LoadOutcome::NativeLoadFailed),
        Err(D3xxError::LibraryAccessFailed)
    );
    assert_eq!(st, LoaderState::NotLoaded);
    assert_eq!(
        apply_load(&mut st, LoadOutcome::ExtractionFailed),
        Err(D3xxError::UnpackingFailed)
    );
    assert_eq!(st, LoaderState::NotLoaded);
    // A later attempt may still succeed.
    assert_eq!(apply_load(&mut st, LoadOutcome::NativeLoaded), Ok(()));
    assert_eq!(st, LoaderState::Loaded);
}

#[test]
fn binding_needs_the_library() {
    let mut slot = SymbolSlot::Unresolved;
    assert_eq!(
        resolve_symbol(&LoaderState::NotLoaded, &mut slot, true),
        Err(D3xxError::LibraryNotLoaded)
    );
    assert_eq!(slot, SymbolSlot::Unresolved);
}

#[test]
fn binding_resolves_once_and_caches() {
    let mut slot = SymbolSlot::Unresolved;
    assert_eq!(resolve_symbol(&LoaderState::Loaded, &mut slot, true), Ok(()));
    assert_eq!(slot, SymbolSlot::Resolved);
    // The cached binding answers without consulting any new lookup.
    assert_eq!(resolve_symbol(&LoaderState::Loaded, &mut slot, false), Ok(()));
    assert_eq!(slot, SymbolSlot::Resolved);
    assert_eq!(
        resolve_symbol(&LoaderState::NotLoaded, &mut slot, false),
        Ok(())
    );
}

#[test]
fn binding_fails_on_absent_name() {
    let mut slot = SymbolSlot::Unresolved;
    assert_eq!(
        resolve_symbol(&LoaderState::Loaded, &mut slot, false),
        Err(D3xxError::LibraryAccessFailed)
    );
    assert_eq!(slot, SymbolSlot::Unresolved);
}

#[test]
fn entry_point_symbol_names() {
    assert_eq!(EntryPoint::Create.symbol_name(), "FT_Create");
    assert_eq!(EntryPoint::Close.symbol_name(), "FT_Close");
    assert_eq!(EntryPoint::ListDevices.symbol_name(), "FT_ListDevices");
    assert_eq!(EntryPoint::GetVidPid.symbol_name(), "FT_GetVIDPID");
    assert_eq!(
        EntryPoint::GetLibraryVersion.symbol_name(),
        "FT_GetLibraryVersion"
    );
}

#[test]
fn availability_follows_count_result() {
    assert!(ft60x::d3xx_available(&Ok(0)));
    assert!(ft60x::d3xx_available(&Ok(3)));
    assert!(!ft60x::d3xx_available(&Err(D3xxError::LibraryNotLoaded)));
}
