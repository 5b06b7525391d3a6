use vstd::prelude::*;

verus! {

/// Operation not permitted.
pub const EPERM: i32 = 1;

/// No such file or directory.
pub const ENOENT: i32 = 2;

/// Input/output error, the catch-all code.
pub const EIO: i32 = 5;

/// Permission denied.
pub const EACCES: i32 = 13;

/// File exists.
pub const EEXIST: i32 = 17;

/// Not a directory.
pub const ENOTDIR: i32 = 20;

/// Is a directory.
pub const EISDIR: i32 = 21;

/// Invalid argument.
pub const EINVAL: i32 = 22;

/// Function not implemented.
pub const ENOSYS: i32 = 38;

/// The code reported for a failed real-filesystem call: the operating
/// system's own code where one was given, else the catch-all.
pub open spec fn os_code(raw: Option<i32>) -> i32 {
    match raw {
        Some(c) => c,
        None => EIO,
    }
}

/// Translates the operating system's code of a failure, if any.
pub fn os_error_code(raw: Option<i32>) -> (r: i32)
    ensures
        r == os_code(raw),
{
    match raw {
        Some(c) => c,
        None => EIO,
    }
}

/// Why opening a file for writing failed, as far as the truncation path
/// distinguishes it.
#[derive(Clone, Copy, Debug, PartialEq, Eq, Structural)]
pub enum OpenFailure {
    NotFound,
    PermissionDenied,
    AlreadyExists,
    InvalidInput,
    Other,
}

/// The code for each open failure of the truncation path.
pub open spec fn open_failure_spec(f: OpenFailure) -> i32 {
    match f {
        OpenFailure::NotFound => ENOENT,
        OpenFailure::PermissionDenied => EACCES,
        OpenFailure::AlreadyExists => EEXIST,
        OpenFailure::InvalidInput => EINVAL,
        OpenFailure::Other => EIO,
    }
}

/// Maps an open failure met while truncating to its code.
pub fn open_failure_code(f: OpenFailure) -> (r: i32)
    ensures
        r == open_failure_spec(f),
{
    match f {
        OpenFailure::NotFound => ENOENT,
        OpenFailure::PermissionDenied => EACCES,
        OpenFailure::AlreadyExists => EEXIST,
        OpenFailure::InvalidInput => EINVAL,
        OpenFailure::Other => EIO,
    }
}

} // verus!
