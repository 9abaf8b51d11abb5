//! The composite error of the library, and the errors of opening a socket.

use vstd::prelude::*;
use embedded_can::ErrorKind;
use crate::can_error::{can_error_kind, CanError};
use crate::controller::ControllerProblem;

verus! {

/// The error values of the `nix` library, carried through unchanged.
#[verifier::external_type_specification]
#[verifier::external_body]
pub struct ExErrno(nix::errno::Errno);

/// The I/O errors of std, carried through unchanged.
#[verifier::external_type_specification]
#[verifier::external_body]
pub struct ExIoError(std::io::Error);

/// Errors opening a socket.
#[derive(Debug)]
pub enum CanSocketOpenError {
    /// Device could not be found
    LookupError(nix::errno::Errno),
    /// System error while trying to look up device name
    IOError(std::io::Error),
}

impl From<nix::errno::Errno> for CanSocketOpenError {
    fn from(e: nix::errno::Errno) -> (r: Self) {
        CanSocketOpenError::LookupError(e)
    }
}

impl vstd::std_specs::convert::FromSpecImpl<nix::errno::Errno> for CanSocketOpenError {
    open spec fn obeys_from_spec() -> bool {
        true
    }

    open spec fn from_spec(e: nix::errno::Errno) -> Self {
        CanSocketOpenError::LookupError(e)
    }
}

impl From<std::io::Error> for CanSocketOpenError {
    fn from(e: std::io::Error) -> (r: Self) {
        CanSocketOpenError::IOError(e)
    }
}

impl vstd::std_specs::convert::FromSpecImpl<std::io::Error> for CanSocketOpenError {
    open spec fn obeys_from_spec() -> bool {
        true
    }

    open spec fn from_spec(e: std::io::Error) -> Self {
        CanSocketOpenError::IOError(e)
    }
}

/// Composite error of the library: any of the errors it deals with.
#[derive(Debug)]
pub enum Error {
    /// A CAN bus error, usually from an error frame
    Can(CanError),
    /// A problem with the CAN controller
    Controller(ControllerProblem),
    /// An error opening the CAN socket
    SocketOpen(CanSocketOpenError),
    /// A lower-level error from the nix library
    Nix(nix::errno::Errno),
    /// A low-level I/O error
    Io(std::io::Error),
}

/// The generic kind of a composite error: that of a CAN bus error, and other
/// for every other case.
pub open spec fn error_kind(e: &Error) -> ErrorKind {
    match e {
        Error::Can(ce) => can_error_kind(*ce),
        _ => ErrorKind::Other,
    }
}

impl Error {
    /// The generic `embedded_can` kind of this error.
    pub fn kind(&self) -> (r: ErrorKind)
        ensures
            r == error_kind(self),
    {
        match self {
            Error::Can(e) => e.kind(),
            _ => ErrorKind::Other,
        }
    }
}

impl From<CanError> for Error {
    fn from(e: CanError) -> (r: Self) {
        Error::Can(e)
    }
}

impl vstd::std_specs::convert::FromSpecImpl<CanError> for Error {
    open spec fn obeys_from_spec() -> bool {
        true
    }

    open spec fn from_spec(e: CanError) -> Self {
        Error::Can(e)
    }
}

impl From<ControllerProblem> for Error {
    fn from(e: ControllerProblem) -> (r: Self) {
        Error::Controller(e)
    }
}

impl vstd::std_specs::convert::FromSpecImpl<ControllerProblem> for Error {
    open spec fn obeys_from_spec() -> bool {
        true
    }

    open spec fn from_spec(e: ControllerProblem) -> Self {
        Error::Controller(e)
    }
}

impl From<CanSocketOpenError> for Error {
    fn from(e: CanSocketOpenError) -> (r: Self) {
        Error::SocketOpen(e)
    }
}

impl vstd::std_specs::convert::FromSpecImpl<CanSocketOpenError> for Error {
    open spec fn obeys_from_spec() -> bool {
        true
    }

    open spec fn from_spec(e: CanSocketOpenError) -> Self {
        Error::SocketOpen(e)
    }
}

impl From<nix::errno::Errno> for Error {
    fn from(e: nix::errno::Errno) -> (r: Self) {
        Error::Nix(e)
    }
}

impl vstd::std_specs::convert::FromSpecImpl<nix::errno::Errno> for Error {
    open spec fn obeys_from_spec() -> bool {
        true
    }

    open spec fn from_spec(e: nix::errno::Errno) -> Self {
        Error::Nix(e)
    }
}

impl From<std::io::Error> for Error {
    fn from(e: std::io::Error) -> (r: Self) {
        Error::Io(e)
    }
}

impl vstd::std_specs::convert::FromSpecImpl<std::io::Error> for Error {
    open spec fn obeys_from_spec() -> bool {
        true
    }

    open spec fn from_spec(e: std::io::Error) -> Self {
        Error::Io(e)
    }
}

/// A result that can derive from any of the CAN errors.
pub type Result<T> = core::result::Result<T, Error>;

} // verus!
