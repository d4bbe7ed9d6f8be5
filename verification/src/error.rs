//! The errors of the protocol.
use scroll::Error as ScrollError;
use vstd::prelude::*;

verus! {

/// What can go wrong talking to a device.
#[derive(Clone, Debug)]
pub enum Error {
    Arguments,
    Parse,
    MalformedRequest,
    Execution,
    Sequence,
    Transmission,
}

impl From<ScrollError> for Error {
    fn from(_err: ScrollError) -> (r: Self) {
        Error::Parse
    }
}

impl vstd::std_specs::convert::FromSpecImpl<ScrollError> for Error {
    open spec fn obeys_from_spec() -> bool {
        true
    }

    open spec fn from_spec(_err: ScrollError) -> Self {
        Error::Parse
    }
}

impl From<core::str::Utf8Error> for Error {
    fn from(_err: core::str::Utf8Error) -> (r: Self) {
        Error::Parse
    }
}

impl vstd::std_specs::convert::FromSpecImpl<core::str::Utf8Error> for Error {
    open spec fn obeys_from_spec() -> bool {
        true
    }

    open spec fn from_spec(_err: core::str::Utf8Error) -> Self {
        Error::Parse
    }
}

/// `hidapi::HidError`, the error of the HID transport.
#[verifier::external_type_specification]
#[verifier::external_body]
pub struct ExHidError(hidapi::HidError);

impl From<hidapi::HidError> for Error {
    fn from(_err: hidapi::HidError) -> (r: Self) {
        Error::Transmission
    }
}

impl vstd::std_specs::convert::FromSpecImpl<hidapi::HidError> for Error {
    open spec fn obeys_from_spec() -> bool {
        true
    }

    open spec fn from_spec(_err: hidapi::HidError) -> Self {
        Error::Transmission
    }
}

/// `std::io::Error`.
#[verifier::external_type_specification]
#[verifier::external_body]
pub struct ExIoError(std::io::Error);

impl From<std::io::Error> for Error {
    fn from(_err: std::io::Error) -> (r: Self) {
        Error::Arguments
    }
}

impl vstd::std_specs::convert::FromSpecImpl<std::io::Error> for Error {
    open spec fn obeys_from_spec() -> bool {
        true
    }

    open spec fn from_spec(_err: std::io::Error) -> Self {
        Error::Arguments
    }
}

} // verus!
