//! The closed set of errors that native status codes map to.
use vstd::prelude::*;

use crate::ffi::{
    CUBEB_ERROR_DEVICE_UNAVAILABLE, CUBEB_ERROR_INVALID_FORMAT, CUBEB_ERROR_INVALID_PARAMETER,
    CUBEB_ERROR_NOT_SUPPORTED, CUBEB_OK,
};

verus! {

/// Failure reported by the native library.
#[derive(Debug, Copy, Clone, PartialEq, Eq, Structural)]
pub enum Error {
    Undefined,
    InvalidFormat,
    InvalidParameter,
    NotSupported,
    DeviceUnavailable,
}

/// The error a native status code stands for; unrecognised codes are `Undefined`.
pub open spec fn error_of(code: int) -> Error {
    if code == CUBEB_ERROR_INVALID_FORMAT {
        Error::InvalidFormat
    } else if code == CUBEB_ERROR_INVALID_PARAMETER {
        Error::InvalidParameter
    } else if code == CUBEB_ERROR_NOT_SUPPORTED {
        Error::NotSupported
    } else if code == CUBEB_ERROR_DEVICE_UNAVAILABLE {
        Error::DeviceUnavailable
    } else {
        Error::Undefined
    }
}

impl From<libc::c_int> for Error {
    fn from(code: libc::c_int) -> (r: Error)
        ensures
            r == error_of(code as int),
    {
        match code {
            CUBEB_ERROR_INVALID_FORMAT => Error::InvalidFormat,
            CUBEB_ERROR_INVALID_PARAMETER => Error::InvalidParameter,
            CUBEB_ERROR_NOT_SUPPORTED => Error::NotSupported,
            CUBEB_ERROR_DEVICE_UNAVAILABLE => Error::DeviceUnavailable,
            _ => Error::Undefined,
        }
    }
}

impl vstd::std_specs::convert::FromSpecImpl<libc::c_int> for Error {
    open spec fn obeys_from_spec() -> bool {
        true
    }

    open spec fn from_spec(code: libc::c_int) -> Error {
        error_of(code as int)
    }
}

/// Result of an operation of this library.
pub type Result<T> = core::result::Result<T, Error>;

/// The outcome a native status stands for when the call has no other output.
pub open spec fn status_outcome(code: int) -> Result<()> {
    if code == CUBEB_OK {
        Ok(())
    } else {
        Err(error_of(code))
    }
}

/// Maps a native status to `Ok(())` on success and to its error otherwise.
pub fn check_status(code: libc::c_int) -> (r: Result<()>)
    ensures
        r == status_outcome(code as int),
{
    if code == CUBEB_OK {
        Ok(())
    } else {
        Err(Error::from(code))
    }
}

/// Maps a native status to `Ok(value)` on success and to its error otherwise.
pub fn status_value<T>(code: libc::c_int, value: T) -> (r: Result<T>)
    ensures
        code == CUBEB_OK ==> r == Ok::<T, Error>(value),
        code != CUBEB_OK ==> r == Err::<T, Error>(error_of(code as int)),
{
    if code == CUBEB_OK {
        Ok(value)
    } else {
        Err(Error::from(code))
    }
}

} // verus!
