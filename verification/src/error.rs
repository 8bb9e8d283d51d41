//! Kernel status codes.

use vstd::prelude::*;

verus! {

/// A Zircon status code returned by a failing kernel operation.
#[allow(non_camel_case_types)]
#[derive(Debug, Clone, Copy, PartialEq, Eq, Structural)]
pub enum ZxError {
    /// The operation is not implemented on this platform.
    NOT_SUPPORTED,
    /// An argument (such as a user buffer) is malformed.
    INVALID_ARGS,
    /// A device reported an input/output failure.
    IO,
    /// A handle value names no handle of the process.
    BAD_HANDLE,
    /// A handle names an object of another type than the one required.
    WRONG_TYPE,
    /// A handle or resource does not grant the access required.
    ACCESS_DENIED,
}

/// The result of a kernel operation.
pub type ZxResult<T = ()> = Result<T, ZxError>;

} // verus!
