//! Errors of the keyboard sync.
use vstd::prelude::*;

verus! {

/// `std::io::Error`, carried unopened inside [`Error::Io`].
#[verifier::external_type_specification]
#[verifier::external_body]
pub struct ExIoError(std::io::Error);

/// What can go wrong while finding, opening or talking to the keyboard, or
/// while reading the volume.
#[derive(Debug)]
pub enum Error {
    /// No keyboard was found, or none answered.
    NoDevice,
    /// The hidraw device at `path` may not be opened by this user.
    PermissionDenied { path: String },
    /// Writing to the hidraw device at `path` failed.
    DeviceDisconnected { path: String },
    /// The keyboard flagged the last packet as corrupt.
    Crc,
    /// The audio server could not be reached.
    PulseConnect(String),
    /// The audio server went away.
    PulseDisconnected,
    /// Any other input or output error.
    Io(std::io::Error),
}

} // verus!
