//! A pass-through wrapper around a native error value. The native error is
//! carried as its numeric code; conversion in and out is lossless.

use vstd::prelude::*;

verus! {

/// The native code with which the runtime refuses a call whose parameter is
/// invalid, as when a buffer is too long to describe to it.
pub const ERROR_INVALID_PARAMETER: u32 = 87;

/// A native error value, carried by its code.
#[derive(Debug, Clone, Copy, PartialEq, Eq, Structural)]
pub struct Error {
    code: u32,
}

impl Error {
    /// The wrapped native code.
    pub closed spec fn code_spec(&self) -> u32 {
        self.code
    }

    /// Wraps a native error code.
    pub fn from_win32(platform: u32) -> (e: Error)
        ensures
            e.code_spec() == platform,
    {
        Error { code: platform }
    }

    /// Unwraps back into the native code; the inverse of [`Error::from_win32`].
    pub fn into_win32(self) -> (c: u32)
        ensures
            c == self.code_spec(),
    {
        self.code
    }

    /// Reads the native code without consuming the wrapper.
    pub fn as_win32(&self) -> (c: u32)
        ensures
            c == self.code_spec(),
    {
        self.code
    }
}

impl From<u32> for Error {
    fn from(e: u32) -> (r: Error) {
        Error::from_win32(e)
    }
}

impl vstd::std_specs::convert::FromSpecImpl<u32> for Error {
    open spec fn obeys_from_spec() -> bool {
        true
    }

    closed spec fn from_spec(e: u32) -> Error {
        Error { code: e }
    }
}

impl From<Error> for u32 {
    fn from(e: Error) -> (r: u32) {
        e.into_win32()
    }
}

impl vstd::std_specs::convert::FromSpecImpl<Error> for u32 {
    open spec fn obeys_from_spec() -> bool {
        true
    }

    open spec fn from_spec(e: Error) -> u32 {
        e.code_spec()
    }
}

} // verus!
