//! What can go wrong between the driver and the instrument.

use vstd::prelude::*;
use vstd::std_specs::convert::FromSpecImpl;

verus! {

/// `serialport::Error`: why a port could not be listed or opened.  The
/// driver never looks inside; it only hands the value on.
#[verifier::external_type_specification]
#[verifier::external_body]
pub struct ExSerialPortError(serialport::Error);

/// `std::io::Error`: why a read or a write on the open port failed, a
/// timeout included.  The driver never looks inside.
#[verifier::external_type_specification]
#[verifier::external_body]
pub struct ExIoError(std::io::Error);

/// `std::str::Utf8Error`: where a byte string stops being UTF-8.  The driver
/// never looks inside.
#[verifier::external_type_specification]
#[verifier::external_body]
pub struct ExUtf8Error(std::str::Utf8Error);

/// Error type for the `NSRT_mk4` driver.
#[derive(Debug)]
pub enum NsrtError {
    /// The serial ports could not be listed, or the instrument's port could
    /// not be opened.
    SerialError(serialport::Error),
    /// A read or a write on the port failed or timed out.
    IoError(std::io::Error),
    /// No port with the instrument's USB identifiers was found.
    NoDevice,
    /// The instrument answered a write with something other than the
    /// acknowledge byte, or with nothing.
    NoAcknowledge,
    /// The instrument's answer is too short, or holds a value outside the
    /// field's domain.
    InvalidResponse,
    /// The caller's value cannot be sent; the text says why.
    InvalidParameter(String),
    /// The instrument's text is not UTF-8.
    Utf8Error(std::str::Utf8Error),
}

impl From<serialport::Error> for NsrtError {
    fn from(error: serialport::Error) -> (result: NsrtError) {
        NsrtError::SerialError(error)
    }
}

impl FromSpecImpl<serialport::Error> for NsrtError {
    open spec fn obeys_from_spec() -> bool {
        true
    }

    open spec fn from_spec(error: serialport::Error) -> NsrtError {
        NsrtError::SerialError(error)
    }
}

impl From<std::io::Error> for NsrtError {
    fn from(error: std::io::Error) -> (result: NsrtError) {
        NsrtError::IoError(error)
    }
}

impl FromSpecImpl<std::io::Error> for NsrtError {
    open spec fn obeys_from_spec() -> bool {
        true
    }

    open spec fn from_spec(error: std::io::Error) -> NsrtError {
        NsrtError::IoError(error)
    }
}

impl From<std::str::Utf8Error> for NsrtError {
    fn from(error: std::str::Utf8Error) -> (result: NsrtError) {
        NsrtError::Utf8Error(error)
    }
}

impl FromSpecImpl<std::str::Utf8Error> for NsrtError {
    open spec fn obeys_from_spec() -> bool {
        true
    }

    open spec fn from_spec(error: std::str::Utf8Error) -> NsrtError {
        NsrtError::Utf8Error(error)
    }
}

} // verus!
