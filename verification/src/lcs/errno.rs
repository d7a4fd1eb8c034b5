//! Linux error numbers used by the compatibility layer.
use vstd::prelude::*;

verus! {

/// Linux errno values returned to Linux programs.
#[derive(Debug, Clone, Copy, PartialEq, Eq, Structural)]
pub enum LinuxErrno {
    /// No such file or directory.
    ENOENT,
    /// I/O error.
    EIO,
    /// Exec format error.
    ENOEXEC,
    /// Bad file descriptor.
    EBADF,
    /// Try again.
    EAGAIN,
    /// Bad address.
    EFAULT,
    /// Invalid argument.
    EINVAL,
    /// Broken pipe.
    EPIPE,
    /// Function not implemented.
    ENOSYS,
}

/// The Linux number of an errno value.
pub open spec fn spec_errno_code(e: LinuxErrno) -> i32 {
    match e {
        LinuxErrno::ENOENT => 2,
        LinuxErrno::EIO => 5,
        LinuxErrno::ENOEXEC => 8,
        LinuxErrno::EBADF => 9,
        LinuxErrno::EAGAIN => 11,
        LinuxErrno::EFAULT => 14,
        LinuxErrno::EINVAL => 22,
        LinuxErrno::EPIPE => 32,
        LinuxErrno::ENOSYS => 38,
    }
}

impl LinuxErrno {
    /// The Linux number of this errno value.
    pub fn code(&self) -> (c: i32)
        ensures
            c == spec_errno_code(*self),
    {
        match self {
            LinuxErrno::ENOENT => 2,
            LinuxErrno::EIO => 5,
            LinuxErrno::ENOEXEC => 8,
            LinuxErrno::EBADF => 9,
            LinuxErrno::EAGAIN => 11,
            LinuxErrno::EFAULT => 14,
            LinuxErrno::EINVAL => 22,
            LinuxErrno::EPIPE => 32,
            LinuxErrno::ENOSYS => 38,
        }
    }
}

/// The Linux errno of a Redox error number: Redox numbers its errors as
/// Linux does, so a number this layer knows maps to itself; any other
/// number is reported as `EIO`.
pub open spec fn spec_errno_from_redox(n: usize) -> LinuxErrno {
    if n == 2 {
        LinuxErrno::ENOENT
    } else if n == 8 {
        LinuxErrno::ENOEXEC
    } else if n == 9 {
        LinuxErrno::EBADF
    } else if n == 11 {
        LinuxErrno::EAGAIN
    } else if n == 14 {
        LinuxErrno::EFAULT
    } else if n == 22 {
        LinuxErrno::EINVAL
    } else if n == 32 {
        LinuxErrno::EPIPE
    } else if n == 38 {
        LinuxErrno::ENOSYS
    } else {
        LinuxErrno::EIO
    }
}

impl LinuxErrno {
    /// The Linux errno of a Redox error number.
    pub fn from_redox(n: usize) -> (e: LinuxErrno)
        ensures
            e == spec_errno_from_redox(n),
    {
        match n {
            2 => LinuxErrno::ENOENT,
            8 => LinuxErrno::ENOEXEC,
            9 => LinuxErrno::EBADF,
            11 => LinuxErrno::EAGAIN,
            14 => LinuxErrno::EFAULT,
            22 => LinuxErrno::EINVAL,
            32 => LinuxErrno::EPIPE,
            38 => LinuxErrno::ENOSYS,
            _ => LinuxErrno::EIO,
        }
    }
}

/// A known errno survives the trip through its number.
pub proof fn lemma_errno_redox_roundtrip(e: LinuxErrno)
    ensures
        spec_errno_from_redox(spec_errno_code(e) as usize) == e,
{
}

} // verus!
