//! Error codes of the driver.
use vstd::prelude::*;

verus! {

/// The kernel error codes that the driver's logic returns.
#[derive(Debug, Clone, Copy, PartialEq, Eq, Structural)]
pub enum Error {
    /// Invalid argument or malformed data (`EINVAL`).
    Inval,
    /// No such entry (`ENOENT`).
    NoEnt,
    /// Timed out (`ETIMEDOUT`).
    TimedOut,
    /// Input/output error (`EIO`).
    Io,
    /// No such device or address (`ENXIO`).
    NxIo,
    /// Try again (`EAGAIN`).
    Again,
}

/// Result type of the driver's fallible operations.
pub type Result<T> = core::result::Result<T, Error>;

impl Error {
    /// The negative errno value that the kernel uses for this error.
    pub open spec fn spec_errno(self) -> int {
        match self {
            Error::Inval => -22,
            Error::NoEnt => -2,
            Error::TimedOut => -110,
            Error::Io => -5,
            Error::NxIo => -6,
            Error::Again => -11,
        }
    }

    /// The negative errno value that the kernel uses for this error.
    pub fn to_errno(self) -> (r: i32)
        ensures
            r == self.spec_errno(),
    {
        match self {
            Error::Inval => -22,
            Error::NoEnt => -2,
            Error::TimedOut => -110,
            Error::Io => -5,
            Error::NxIo => -6,
            Error::Again => -11,
        }
    }
}

} // verus!
