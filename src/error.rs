//! Failure classes of filesystem operations and their OS error codes. The
//! codes are the Linux kernel's, which the filesystem protocol carries.
use vstd::prelude::*;

verus! {

/// No such file or directory.
pub const ENOENT: i32 = 2;

/// Input/output error.
pub const EIO: i32 = 5;

/// Argument list too long; also a value too large to be reported.
pub const E2BIG: i32 = 7;

/// Permission denied.
pub const EACCES: i32 = 13;

/// Invalid argument.
pub const EINVAL: i32 = 22;

/// Result out of range (a caller's buffer is too small).
pub const ERANGE: i32 = 34;

/// Function not implemented.
pub const ENOSYS: i32 = 38;

/// Operation not supported on this platform.
pub const EOPNOTSUPP: i32 = 95;

/// The largest error code the kernel protocol carries in an error reply.
pub const MAX_ERRNO: i32 = 4095;

/// How an operation failed.
#[derive(Clone, Copy, Debug, PartialEq, Eq, Structural)]
pub enum FsError {
    /// The filesystem does not provide the operation.
    NotImplemented,
    /// An argument was rejected.
    InvalidArgument,
    /// The named entity does not exist.
    NotFound,
    /// The caller may not perform the operation.
    PermissionDenied,
    /// A caller-supplied buffer is too small for the result.
    RangeExceeded,
    /// The backing store failed.
    Io,
    /// The operation exists only on another host platform.
    Unsupported,
    /// A raw OS error code reported by the filesystem.
    Os(i32),
}

/// Whether `code` is a code the kernel protocol can carry.
pub open spec fn is_errno(code: i32) -> bool {
    0 < code <= MAX_ERRNO
}

/// The OS error code of each failure class. A raw code outside the range the
/// protocol carries is unknown and reported as "not implemented".
pub open spec fn errno_of(e: FsError) -> i32 {
    match e {
        FsError::NotImplemented => ENOSYS,
        FsError::InvalidArgument => EINVAL,
        FsError::NotFound => ENOENT,
        FsError::PermissionDenied => EACCES,
        FsError::RangeExceeded => ERANGE,
        FsError::Io => EIO,
        FsError::Unsupported => EOPNOTSUPP,
        FsError::Os(code) => if is_errno(code) { code } else { ENOSYS },
    }
}

impl FsError {
    /// The failure of an operation the filesystem does not provide.
    pub fn unimplemented() -> (r: FsError)
        ensures
            r == FsError::NotImplemented,
    {
        FsError::NotImplemented
    }

    /// The OS error code handed to the kernel for this failure.
    pub fn errno(&self) -> (r: i32)
        ensures
            r == errno_of(*self),
            is_errno(r),
    {
        match self {
            FsError::NotImplemented => ENOSYS,
            FsError::InvalidArgument => EINVAL,
            FsError::NotFound => ENOENT,
            FsError::PermissionDenied => EACCES,
            FsError::RangeExceeded => ERANGE,
            FsError::Io => EIO,
            FsError::Unsupported => EOPNOTSUPP,
            FsError::Os(code) => {
                if 0 < *code && *code <= MAX_ERRNO {
                    *code
                } else {
                    ENOSYS
                }
            },
        }
    }
}

/// The outcome of `init` as the kernel transport takes it: success, or the OS
/// error code that aborts the mount.
pub fn init_result(outcome: Result<(), FsError>) -> (r: Result<(), i32>)
    ensures
        outcome is Ok <==> r is Ok,
        outcome is Err ==> r == Err::<(), i32>(errno_of(outcome->Err_0)),
{
    match outcome {
        Ok(()) => Ok(()),
        Err(e) => Err(e.errno()),
    }
}

} // verus!
