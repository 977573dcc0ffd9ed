use ft60x::error::{check_status, from_status, try_from_status, D3xxError};

#[test]
fn status_round_trip_all_codes() {
    for code in 1u32..=32 {
        let e = from_status(code);
        assert_eq!(e.error_code(), Some(code));
    }
}

#[test]
fn status_known_kinds() {
    assert_eq!(from_status(1), D3xxError::InvalidHandle);
    assert_eq!(from_status(2), D3xxError::DeviceNotFound);
    assert_eq!(from_status(6), D3xxError::InvalidParameter);
    assert_eq!(from_status(19), D3xxError::Timeout);
    assert_eq!(from_status(32), D3xxError::OtherError);
}

#[test]
fn status_out_of_range_fails_construction() {
    assert_eq!(try_from_status(0), None);
    assert_eq!(try_from_status(33), None);
    assert_eq!(try_from_status(u32::MAX), None);
    assert_eq!(try_from_status(7), Some(D3xxError::InvalidBaudRate));
}

#[test]
fn boundary_kinds_have_no_code() {
    assert_eq!(D3xxError::LibraryAccessFailed.error_code(), None);
    assert_eq!(D3xxError::UnpackingFailed.error_code(), None);
    assert_eq!(D3xxError::LibraryAlreadyLoaded.error_code(), None);
    assert_eq!(D3xxError::LibraryNotLoaded.error_code(), None);
}

#[test]
fn check_status_success_and_failure() {
    assert_eq!(check_status(0), Ok(()));
    assert_eq!(check_status(4), Err(D3xxError::IoError));
    assert_eq!(check_status(32), Err(D3xxError::OtherError));
}

#[test]
fn describe_names_kind_and_code() {
    assert_eq!(from_status(1).describe(), "InvalidHandle (error code 1)");
    assert_eq!(from_status(19).describe(), "Timeout (error code 19)");
    assert_eq!(
        D3xxError::LibraryNotLoaded.describe(),
        "LibraryNotLoaded (error code N/A)"
    );
}
