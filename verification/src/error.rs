//! The error taxonomy, and the mapping from kernel error numbers into it.

use vstd::prelude::*;

verus! {

/// Kernel error number: no such queue.
pub const ENOENT: i32 = 2;
/// Kernel error number: the call was interrupted by a signal.
pub const EINTR: i32 = 4;
/// Kernel error number: the descriptor is invalid.
pub const EBADF: i32 = 9;
/// Kernel error number: the operation would block.
pub const EAGAIN: i32 = 11;
/// Kernel error number: access denied.
pub const EACCES: i32 = 13;
/// Kernel error number: the queue already exists.
pub const EEXIST: i32 = 17;
/// Kernel error number: invalid argument.
pub const EINVAL: i32 = 22;
/// Kernel error number: the facility is not available.
pub const ENOSYS: i32 = 38;
/// Kernel error number: message or buffer size does not fit the queue.
pub const EMSGSIZE: i32 = 90;
/// Kernel error number: the deadline of a timed call was reached.
pub const ETIMEDOUT: i32 = 110;

/// What can go wrong when opening or using a message queue.
///
/// Every kernel error number is mapped to exactly one of these kinds;
/// conditions without a kind of their own are reported as [`Error::Other`],
/// which carries the original kernel error number for diagnostics.
#[derive(Clone, Copy, Debug, PartialEq, Eq, Structural)]
pub enum Error {
    /// The queue or name is absent, or the name is empty or a bare separator.
    NotFound,
    /// The queue already exists and exclusive creation was requested.
    AlreadyExists,
    /// Access denied, or the name holds more than one separator.
    PermissionDenied,
    /// An embedded null byte, an invalid priority, an unrepresentable timeout
    /// or deadline, or an invalid capacity/size combination.
    InvalidInput,
    /// A non-blocking operation would otherwise have blocked.
    WouldBlock,
    /// A timed operation reached its deadline.
    TimedOut,
    /// Any remaining kernel condition, carrying the kernel error number.
    /// The library itself raises two: the unsupported-operation number
    /// [`ENOSYS`] for operations the build's call layer does not define,
    /// and zero for a condition with no kernel number at all (an
    /// unrepresentable clock reading, or an abandoned retry).
    Other(i32),
}

/// The kind that a kernel error number is reported as.
pub open spec fn kind_of_errno(code: i32) -> Error {
    if code == ENOENT {
        Error::NotFound
    } else if code == EEXIST {
        Error::AlreadyExists
    } else if code == EACCES {
        Error::PermissionDenied
    } else if code == EINVAL {
        Error::InvalidInput
    } else if code == EAGAIN {
        Error::WouldBlock
    } else if code == ETIMEDOUT {
        Error::TimedOut
    } else {
        Error::Other(code)
    }
}

/// Decide whether a kernel error number is the interrupted-call
/// condition, the one condition the send and receive loops retry
/// transparently instead of reporting.
pub fn is_interrupted(code: i32) -> (b: bool)
    ensures
        b <==> code == EINTR,
{
    code == EINTR
}

/// Map a kernel error number to its reported kind.
pub fn error_from_errno(code: i32) -> (r: Error)
    ensures
        r == kind_of_errno(code),
{
    if code == ENOENT {
        Error::NotFound
    } else if code == EEXIST {
        Error::AlreadyExists
    } else if code == EACCES {
        Error::PermissionDenied
    } else if code == EINVAL {
        Error::InvalidInput
    } else if code == EAGAIN {
        Error::WouldBlock
    } else if code == ETIMEDOUT {
        Error::TimedOut
    } else {
        Error::Other(code)
    }
}

} // verus!
