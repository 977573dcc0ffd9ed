//! The closed error taxonomy of the D3XX layer.
//!
//! Thirty-one kinds mirror the native status codes 1..=32 one-to-one; four
//! boundary kinds cover the dynamic-load and asset-extraction edge and carry
//! no numeric code. Status code 0 means success and maps to no error.

use vstd::prelude::*;

verus! {

/// One error kind per native status code 1..=32, plus the four boundary
/// kinds of the loading layer.
///
/// The native driver promises to return only status codes 0..=32; a code
/// outside that range is a contract violation of the native ABI, which the
/// runtime around this crate must treat as fatal rather than coerce into one
/// of these kinds. [`try_from_status`] tells the two cases apart.
#[derive(Debug, Clone, Copy, PartialEq, Eq, Structural)]
pub enum D3xxError {
    InvalidHandle,
    DeviceNotFound,
    DeviceNotOpened,
    IoError,
    InsufficientResources,
    InvalidParameter,
    InvalidBaudRate,
    DeviceNotOpenedForErase,
    DeviceNotOpenedForWrite,
    FailedToWriteDevice,
    EEPROMReadFailed,
    EEPROMWriteFailed,
    EEPROMEraseFailed,
    EEPROMNotPresent,
    EEPROMNotProgrammed,
    InvalidArgs,
    NotSupported,
    NoMoreItems,
    Timeout,
    OperationAborted,
    ReservedPipe,
    InvalidControlRequestDirection,
    InvalidControLRequestType,
    IoPending,
    IoIncomplete,
    HandleEof,
    Busy,
    NoSystemResources,
    DeviceListNotReady,
    DeviceNotConnected,
    IncorrectDevicePath,
    OtherError,
    /// The dynamic loader failed to load or bind the native library.
    LibraryAccessFailed,
    /// Extracting a bundled copy of the native library onto disk failed.
    UnpackingFailed,
    /// A load was attempted after one had already succeeded.
    LibraryAlreadyLoaded,
    /// An operation needed the native library before any load succeeded.
    LibraryNotLoaded,
}

/// The error kind denoted by a native status code in 1..=32.
pub open spec fn status_to_error(code: u32) -> D3xxError
    recommends
        1 <= code <= 32,
{
    if code == 1 { D3xxError::InvalidHandle }
    else if code == 2 { D3xxError::DeviceNotFound }
    else if code == 3 { D3xxError::DeviceNotOpened }
    else if code == 4 { D3xxError::IoError }
    else if code == 5 { D3xxError::InsufficientResources }
    else if code == 6 { D3xxError::InvalidParameter }
    else if code == 7 { D3xxError::InvalidBaudRate }
    else if code == 8 { D3xxError::DeviceNotOpenedForErase }
    else if code == 9 { D3xxError::DeviceNotOpenedForWrite }
    else if code == 10 { D3xxError::FailedToWriteDevice }
    else if code == 11 { D3xxError::EEPROMReadFailed }
    else if code == 12 { D3xxError::EEPROMWriteFailed }
    else if code == 13 { D3xxError::EEPROMEraseFailed }
    else if code == 14 { D3xxError::EEPROMNotPresent }
    else if code == 15 { D3xxError::EEPROMNotProgrammed }
    else if code == 16 { D3xxError::InvalidArgs }
    else if code == 17 { D3xxError::NotSupported }
    else if code == 18 { D3xxError::NoMoreItems }
    else if code == 19 { D3xxError::Timeout }
    else if code == 20 { D3xxError::OperationAborted }
    else if code == 21 { D3xxError::ReservedPipe }
    else if code == 22 { D3xxError::InvalidControlRequestDirection }
    else if code == 23 { D3xxError::InvalidControLRequestType }
    else if code == 24 { D3xxError::IoPending }
    else if code == 25 { D3xxError::IoIncomplete }
    else if code == 26 { D3xxError::HandleEof }
    else if code == 27 { D3xxError::Busy }
    else if code == 28 { D3xxError::NoSystemResources }
    else if code == 29 { D3xxError::DeviceListNotReady }
    else if code == 30 { D3xxError::DeviceNotConnected }
    else if code == 31 { D3xxError::IncorrectDevicePath }
    else { D3xxError::OtherError }
}

impl D3xxError {
    /// The stable numeric code of this kind: its native status value for the
    /// thirty-one catalog kinds, `None` for the four boundary kinds.
    pub open spec fn spec_code(self) -> Option<u32> {
        match self {
            D3xxError::InvalidHandle => Some(1u32),
            D3xxError::DeviceNotFound => Some(2u32),
            D3xxError::DeviceNotOpened => Some(3u32),
            D3xxError::IoError => Some(4u32),
            D3xxError::InsufficientResources => Some(5u32),
            D3xxError::InvalidParameter => Some(6u32),
            D3xxError::InvalidBaudRate => Some(7u32),
            D3xxError::DeviceNotOpenedForErase => Some(8u32),
            D3xxError::DeviceNotOpenedForWrite => Some(9u32),
            D3xxError::FailedToWriteDevice => Some(10u32),
            D3xxError::EEPROMReadFailed => Some(11u32),
            D3xxError::EEPROMWriteFailed => Some(12u32),
            D3xxError::EEPROMEraseFailed => Some(13u32),
            D3xxError::EEPROMNotPresent => Some(14u32),
            D3xxError::EEPROMNotProgrammed => Some(15u32),
            D3xxError::InvalidArgs => Some(16u32),
            D3xxError::NotSupported => Some(17u32),
            D3xxError::NoMoreItems => Some(18u32),
            D3xxError::Timeout => Some(19u32),
            D3xxError::OperationAborted => Some(20u32),
            D3xxError::ReservedPipe => Some(21u32),
            D3xxError::InvalidControlRequestDirection => Some(22u32),
            D3xxError::InvalidControLRequestType => Some(23u32),
            D3xxError::IoPending => Some(24u32),
            D3xxError::IoIncomplete => Some(25u32),
            D3xxError::HandleEof => Some(26u32),
            D3xxError::Busy => Some(27u32),
            D3xxError::NoSystemResources => Some(28u32),
            D3xxError::DeviceListNotReady => Some(29u32),
            D3xxError::DeviceNotConnected => Some(30u32),
            D3xxError::IncorrectDevicePath => Some(31u32),
            D3xxError::OtherError => Some(32u32),
            D3xxError::LibraryAccessFailed => None,
            D3xxError::UnpackingFailed => None,
            D3xxError::LibraryAlreadyLoaded => None,
            D3xxError::LibraryNotLoaded => None,
        }
    }

    /// The stable numeric code of this kind, when it has one.
    pub fn error_code(&self) -> (r: Option<u32>)
        ensures
            r == self.spec_code(),
    {
        match self {
            D3xxError::InvalidHandle => Some(1),
            D3xxError::DeviceNotFound => Some(2),
            D3xxError::DeviceNotOpened => Some(3),
            D3xxError::IoError => Some(4),
            D3xxError::InsufficientResources => Some(5),
            D3xxError::InvalidParameter => Some(6),
            D3xxError::InvalidBaudRate => Some(7),
            D3xxError::DeviceNotOpenedForErase => Some(8),
            D3xxError::DeviceNotOpenedForWrite => Some(9),
            D3xxError::FailedToWriteDevice => Some(10),
            D3xxError::EEPROMReadFailed => Some(11),
            D3xxError::EEPROMWriteFailed => Some(12),
            D3xxError::EEPROMEraseFailed => Some(13),
            D3xxError::EEPROMNotPresent => Some(14),
            D3xxError::EEPROMNotProgrammed => Some(15),
            D3xxError::InvalidArgs => Some(16),
            D3xxError::NotSupported => Some(17),
            D3xxError::NoMoreItems => Some(18),
            D3xxError::Timeout => Some(19),
            D3xxError::OperationAborted => Some(20),
            D3xxError::ReservedPipe => Some(21),
            D3xxError::InvalidControlRequestDirection => Some(22),
            D3xxError::InvalidControLRequestType => Some(23),
            D3xxError::IoPending => Some(24),
            D3xxError::IoIncomplete => Some(25),
            D3xxError::HandleEof => Some(26),
            D3xxError::Busy => Some(27),
            D3xxError::NoSystemResources => Some(28),
            D3xxError::DeviceListNotReady => Some(29),
            D3xxError::DeviceNotConnected => Some(30),
            D3xxError::IncorrectDevicePath => Some(31),
            D3xxError::OtherError => Some(32),
            D3xxError::LibraryAccessFailed => None,
            D3xxError::UnpackingFailed => None,
            D3xxError::LibraryAlreadyLoaded => None,
            D3xxError::LibraryNotLoaded => None,
        }
    }

    /// The description returned by [`D3xxError::describe`].
    pub open spec fn spec_describe(self) -> Seq<char> {
        match self {
            D3xxError::InvalidHandle => "InvalidHandle (error code 1)"@,
            D3xxError::DeviceNotFound => "DeviceNotFound (error code 2)"@,
            D3xxError::DeviceNotOpened => "DeviceNotOpened (error code 3)"@,
            D3xxError::IoError => "IoError (error code 4)"@,
            D3xxError::InsufficientResources => "InsufficientResources (error code 5)"@,
            D3xxError::InvalidParameter => "InvalidParameter (error code 6)"@,
            D3xxError::InvalidBaudRate => "InvalidBaudRate (error code 7)"@,
            D3xxError::DeviceNotOpenedForErase => "DeviceNotOpenedForErase (error code 8)"@,
            D3xxError::DeviceNotOpenedForWrite => "DeviceNotOpenedForWrite (error code 9)"@,
            D3xxError::FailedToWriteDevice => "FailedToWriteDevice (error code 10)"@,
            D3xxError::EEPROMReadFailed => "EEPROMReadFailed (error code 11)"@,
            D3xxError::EEPROMWriteFailed => "EEPROMWriteFailed (error code 12)"@,
            D3xxError::EEPROMEraseFailed => "EEPROMEraseFailed (error code 13)"@,
            D3xxError::EEPROMNotPresent => "EEPROMNotPresent (error code 14)"@,
            D3xxError::EEPROMNotProgrammed => "EEPROMNotProgrammed (error code 15)"@,
            D3xxError::InvalidArgs => "InvalidArgs (error code 16)"@,
            D3xxError::NotSupported => "NotSupported (error code 17)"@,
            D3xxError::NoMoreItems => "NoMoreItems (error code 18)"@,
            D3xxError::Timeout => "Timeout (error code 19)"@,
            D3xxError::OperationAborted => "OperationAborted (error code 20)"@,
            D3xxError::ReservedPipe => "ReservedPipe (error code 21)"@,
            D3xxError::InvalidControlRequestDirection => "InvalidControlRequestDirection (error code 22)"@,
            D3xxError::InvalidControLRequestType => "InvalidControLRequestType (error code 23)"@,
            D3xxError::IoPending => "IoPending (error code 24)"@,
            D3xxError::IoIncomplete => "IoIncomplete (error code 25)"@,
            D3xxError::HandleEof => "HandleEof (error code 26)"@,
            D3xxError::Busy => "Busy (error code 27)"@,
            D3xxError::NoSystemResources => "NoSystemResources (error code 28)"@,
            D3xxError::DeviceListNotReady => "DeviceListNotReady (error code 29)"@,
            D3xxError::DeviceNotConnected => "DeviceNotConnected (error code 30)"@,
            D3xxError::IncorrectDevicePath => "IncorrectDevicePath (error code 31)"@,
            D3xxError::OtherError => "OtherError (error code 32)"@,
            D3xxError::LibraryAccessFailed => "LibraryAccessFailed (error code N/A)"@,
            D3xxError::UnpackingFailed => "UnpackingFailed (error code N/A)"@,
            D3xxError::LibraryAlreadyLoaded => "LibraryAlreadyLoaded (error code N/A)"@,
            D3xxError::LibraryNotLoaded => "LibraryNotLoaded (error code N/A)"@,
        }
    }

    /// A diagnostic description of this kind: its name and its stable
    /// numeric code, or `N/A` for the boundary kinds.
    pub fn describe(&self) -> (r: String)
        ensures
            r@ == self.spec_describe(),
    {
        let s: &str = match self {
            D3xxError::InvalidHandle => "InvalidHandle (error code 1)",
            D3xxError::DeviceNotFound => "DeviceNotFound (error code 2)",
            D3xxError::DeviceNotOpened => "DeviceNotOpened (error code 3)",
            D3xxError::IoError => "IoError (error code 4)",
            D3xxError::InsufficientResources => "InsufficientResources (error code 5)",
            D3xxError::InvalidParameter => "InvalidParameter (error code 6)",
            D3xxError::InvalidBaudRate => "InvalidBaudRate (error code 7)",
            D3xxError::DeviceNotOpenedForErase => "DeviceNotOpenedForErase (error code 8)",
            D3xxError::DeviceNotOpenedForWrite => "DeviceNotOpenedForWrite (error code 9)",
            D3xxError::FailedToWriteDevice => "FailedToWriteDevice (error code 10)",
            D3xxError::EEPROMReadFailed => "EEPROMReadFailed (error code 11)",
            D3xxError::EEPROMWriteFailed => "EEPROMWriteFailed (error code 12)",
            D3xxError::EEPROMEraseFailed => "EEPROMEraseFailed (error code 13)",
            D3xxError::EEPROMNotPresent => "EEPROMNotPresent (error code 14)",
            D3xxError::EEPROMNotProgrammed => "EEPROMNotProgrammed (error code 15)",
            D3xxError::InvalidArgs => "InvalidArgs (error code 16)",
            D3xxError::NotSupported => "NotSupported (error code 17)",
            D3xxError::NoMoreItems => "NoMoreItems (error code 18)",
            D3xxError::Timeout => "Timeout (error code 19)",
            D3xxError::OperationAborted => "OperationAborted (error code 20)",
            D3xxError::ReservedPipe => "ReservedPipe (error code 21)",
            D3xxError::InvalidControlRequestDirection => "InvalidControlRequestDirection (error code 22)",
            D3xxError::InvalidControLRequestType => "InvalidControLRequestType (error code 23)",
            D3xxError::IoPending => "IoPending (error code 24)",
            D3xxError::IoIncomplete => "IoIncomplete (error code 25)",
            D3xxError::HandleEof => "HandleEof (error code 26)",
            D3xxError::Busy => "Busy (error code 27)",
            D3xxError::NoSystemResources => "NoSystemResources (error code 28)",
            D3xxError::DeviceListNotReady => "DeviceListNotReady (error code 29)",
            D3xxError::DeviceNotConnected => "DeviceNotConnected (error code 30)",
            D3xxError::IncorrectDevicePath => "IncorrectDevicePath (error code 31)",
            D3xxError::OtherError => "OtherError (error code 32)",
            D3xxError::LibraryAccessFailed => "LibraryAccessFailed (error code N/A)",
            D3xxError::UnpackingFailed => "UnpackingFailed (error code N/A)",
            D3xxError::LibraryAlreadyLoaded => "LibraryAlreadyLoaded (error code N/A)",
            D3xxError::LibraryNotLoaded => "LibraryNotLoaded (error code N/A)",
        };
        s.to_owned()
    }
}

/// The error kind for a native status code known to lie in 1..=32.
///
/// The native library promises only the codes 0..=32, so a code outside
/// that range is excluded here; [`try_from_status`] is the total form that
/// lets a caller detect such a contract violation and fail loudly.
pub fn from_status(code: u32) -> (e: D3xxError)
    requires
        1 <= code <= 32,
    ensures
        e == status_to_error(code),
{
    match code {
        1 => D3xxError::InvalidHandle,
        2 => D3xxError::DeviceNotFound,
        3 => D3xxError::DeviceNotOpened,
        4 => D3xxError::IoError,
        5 => D3xxError::InsufficientResources,
        6 => D3xxError::InvalidParameter,
        7 => D3xxError::InvalidBaudRate,
        8 => D3xxError::DeviceNotOpenedForErase,
        9 => D3xxError::DeviceNotOpenedForWrite,
        10 => D3xxError::FailedToWriteDevice,
        11 => D3xxError::EEPROMReadFailed,
        12 => D3xxError::EEPROMWriteFailed,
        13 => D3xxError::EEPROMEraseFailed,
        14 => D3xxError::EEPROMNotPresent,
        15 => D3xxError::EEPROMNotProgrammed,
        16 => D3xxError::InvalidArgs,
        17 => D3xxError::NotSupported,
        18 => D3xxError::NoMoreItems,
        19 => D3xxError::Timeout,
        20 => D3xxError::OperationAborted,
        21 => D3xxError::ReservedPipe,
        22 => D3xxError::InvalidControlRequestDirection,
        23 => D3xxError::InvalidControLRequestType,
        24 => D3xxError::IoPending,
        25 => D3xxError::IoIncomplete,
        26 => D3xxError::HandleEof,
        27 => D3xxError::Busy,
        28 => D3xxError::NoSystemResources,
        29 => D3xxError::DeviceListNotReady,
        30 => D3xxError::DeviceNotConnected,
        31 => D3xxError::IncorrectDevicePath,
        _ => D3xxError::OtherError,
    }
}

/// The error kind for a native status code, or `None` where the code lies
/// outside the documented space 1..=32 and no kind may be constructed.
pub fn try_from_status(code: u32) -> (r: Option<D3xxError>)
    ensures
        1 <= code <= 32 ==> r == Some(status_to_error(code)),
        !(1 <= code <= 32) ==> r is None,
{
    if 1 <= code && code <= 32 {
        Some(from_status(code))
    } else {
        None
    }
}

/// Interpret a native status value: 0 is success, 1..=32 is the
/// corresponding error kind.
pub fn check_status(status: u32) -> (r: Result<(), D3xxError>)
    requires
        status <= 32,
    ensures
        status == 0 <==> r is Ok,
        status != 0 ==> r == Result::<(), D3xxError>::Err(status_to_error(status)),
{
    if status == 0 {
        Ok(())
    } else {
        Err(from_status(status))
    }
}

/// Every native status code in 1..=32 yields a kind whose numeric code is
/// that same code; distinct codes therefore yield distinct kinds.
pub proof fn lemma_status_round_trip(code: u32)
    requires
        1 <= code <= 32,
    ensures
        status_to_error(code).spec_code() == Some(code),
{
}

} // verus!
