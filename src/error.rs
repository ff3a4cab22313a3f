//! The failure taxonomy of the file layer and the syscall return convention.

use vstd::prelude::*;

verus! {

/// Why an operation of this layer failed.
#[derive(Clone, Copy, PartialEq, Eq, Structural, Debug)]
pub enum FsError {
    /// The handle is not open, or refers to the wrong kind of object.
    BadDescriptor,
    /// Path resolution failed.
    LookupError,
    /// A flag set holds bits that are not recognised.
    InvalidFlags,
    /// No descriptor slot is available.
    TableFull,
    /// The VFS or a device reported an error.
    DeviceOrMediaError,
    /// An argument other than a flag set is out of its range.
    InvalidArgument,
}

/// The generic failure value returned by every syscall handler.
pub const SYSCALL_FAILURE: isize = -1;

/// The syscall return value of an outcome: the value itself on success,
/// the failure value on any error.
pub open spec fn spec_ret(r: Result<isize, FsError>) -> isize {
    match r {
        Ok(v) => v,
        Err(_) => SYSCALL_FAILURE,
    }
}

/// Maps an outcome to the syscall return convention.
pub fn syscall_ret(r: Result<isize, FsError>) -> (v: isize)
    ensures
        v == spec_ret(r),
{
    match r {
        Ok(v) => v,
        Err(_) => SYSCALL_FAILURE,
    }
}

} // verus!
