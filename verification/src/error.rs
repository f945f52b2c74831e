//! Error taxonomy of the protocol engine.

use vstd::prelude::*;

verus! {

/// Failure of parsing a colour from a hexadecimal string.
#[derive(Clone, Copy, PartialEq, Eq, Structural, Debug)]
pub enum ParseRGBError {
    /// After stripping the accepted prefixes and suffix, the string has a
    /// length other than 3 or 6 (the length found is carried).
    WrongLength(usize),
    /// A byte that is not a hexadecimal digit was found (the byte is carried).
    ParseHex(u8),
}

/// Everything that can go wrong between building a request and interpreting
/// a response.  Transport faults of the underlying USB stack are wrapped by
/// the application around this type; the engine itself only produces the
/// variants below.
#[derive(Clone, Copy, PartialEq, Eq, Structural, Debug)]
pub enum USBError {
    NonCompatibleDevice,
    DeviceNotFound,
    /// (total, written): the device accepted fewer bytes than the report holds.
    IncompleteWrite(usize, usize),
    /// (total, read): the device returned fewer bytes than a report holds.
    IncompleteRead(usize, usize),
    /// An echoed field of the response differs from the request.
    ResponseMismatch,
    DeviceBusy,
    CommandFailed,
    CommandNotSupported,
    CommandTimeout,
    /// The status byte of the response is not a known command status.
    ResponseUnknownStatus(u8),
    /// A value byte of the response is outside its known set.
    ResponseUnknownValue(u8),
}

} // verus!
