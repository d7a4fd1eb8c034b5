//! Linux x86_64 system call numbers.
use vstd::prelude::*;

verus! {

/// The Linux system calls the compatibility layer knows, by their x86_64
/// numbers; any other number is `Unknown`.
#[derive(Debug, Clone, Copy, PartialEq, Eq, Structural)]
pub enum LinuxSyscall {
    /// `read` (0).
    Read,
    /// `write` (1).
    Write,
    /// `open` (2).
    Open,
    /// `close` (3).
    Close,
    /// `stat` (4).
    Stat,
    /// `fstat` (5).
    Fstat,
    /// `lstat` (6).
    Lstat,
    /// `lseek` (8).
    Lseek,
    /// `mmap` (9).
    Mmap,
    /// `mprotect` (10).
    Mprotect,
    /// `munmap` (11).
    Munmap,
    /// `brk` (12).
    Brk,
    /// `rt_sigaction` (13).
    RtSigaction,
    /// `rt_sigprocmask` (14).
    RtSigprocmask,
    /// `rt_sigreturn` (15).
    RtSigreturn,
    /// `access` (21).
    Access,
    /// `pipe` (22).
    Pipe,
    /// `dup` (32).
    Dup,
    /// `dup2` (33).
    Dup2,
    /// `nanosleep` (35).
    Nanosleep,
    /// `getpid` (39).
    Getpid,
    /// `clone` (56).
    Clone,
    /// `fork` (57).
    Fork,
    /// `vfork` (58).
    Vfork,
    /// `execve` (59).
    Execve,
    /// `exit` (60).
    Exit,
    /// `wait4` (61).
    Wait4,
    /// `kill` (62).
    Kill,
    /// `uname` (63).
    Uname,
    /// `getcwd` (79).
    Getcwd,
    /// `chdir` (80).
    Chdir,
    /// `mkdir` (83).
    Mkdir,
    /// `rmdir` (84).
    Rmdir,
    /// `unlink` (87).
    Unlink,
    /// `gettimeofday` (96).
    Gettimeofday,
    /// `getuid` (102).
    Getuid,
    /// `getgid` (104).
    Getgid,
    /// `geteuid` (107).
    Geteuid,
    /// `getegid` (108).
    Getegid,
    /// `getppid` (110).
    Getppid,
    /// `arch_prctl` (158).
    ArchPrctl,
    /// `gettid` (186).
    Gettid,
    /// `tkill` (200).
    Tkill,
    /// `futex` (202).
    Futex,
    /// `getdents64` (217).
    Getdents64,
    /// `set_tid_address` (218).
    SetTidAddress,
    /// `clock_gettime` (228).
    ClockGettime,
    /// `exit_group` (231).
    ExitGroup,
    /// `tgkill` (234).
    Tgkill,
    /// `openat` (257).
    Openat,
    /// `newfstatat` (262).
    Newfstatat,
    /// `unlinkat` (263).
    Unlinkat,
    /// `faccessat` (269).
    Faccessat,
    /// `eventfd` (284).
    Eventfd,
    /// `eventfd2` (290).
    Eventfd2,
    /// `dup3` (292).
    Dup3,
    /// `pipe2` (293).
    Pipe2,
    /// `prlimit64` (302).
    Prlimit64,
    /// `getrandom` (318).
    Getrandom,
    /// `memfd_create` (319).
    MemfdCreate,
    /// `futex_waitv` (449).
    FutexWaitv,
    /// A number the layer does not know.
    Unknown(u64),
}

/// The system call of an x86_64 syscall number.
pub open spec fn spec_syscall_of(num: u64) -> LinuxSyscall {
    if num == 0 {
        LinuxSyscall::Read
    } else if num == 1 {
        LinuxSyscall::Write
    } else if num == 2 {
        LinuxSyscall::Open
    } else if num == 3 {
        LinuxSyscall::Close
    } else if num == 4 {
        LinuxSyscall::Stat
    } else if num == 5 {
        LinuxSyscall::Fstat
    } else if num == 6 {
        LinuxSyscall::Lstat
    } else if num == 8 {
        LinuxSyscall::Lseek
    } else if num == 9 {
        LinuxSyscall::Mmap
    } else if num == 10 {
        LinuxSyscall::Mprotect
    } else if num == 11 {
        LinuxSyscall::Munmap
    } else if num == 12 {
        LinuxSyscall::Brk
    } else if num == 13 {
        LinuxSyscall::RtSigaction
    } else if num == 14 {
        LinuxSyscall::RtSigprocmask
    } else if num == 15 {
        LinuxSyscall::RtSigreturn
    } else if num == 21 {
        LinuxSyscall::Access
    } else if num == 22 {
        LinuxSyscall::Pipe
    } else if num == 32 {
        LinuxSyscall::Dup
    } else if num == 33 {
        LinuxSyscall::Dup2
    } else if num == 35 {
        LinuxSyscall::Nanosleep
    } else if num == 39 {
        LinuxSyscall::Getpid
    } else if num == 56 {
        LinuxSyscall::Clone
    } else if num == 57 {
        LinuxSyscall::Fork
    } else if num == 58 {
        LinuxSyscall::Vfork
    } else if num == 59 {
        LinuxSyscall::Execve
    } else if num == 60 {
        LinuxSyscall::Exit
    } else if num == 61 {
        LinuxSyscall::Wait4
    } else if num == 62 {
        LinuxSyscall::Kill
    } else if num == 63 {
        LinuxSyscall::Uname
    } else if num == 79 {
        LinuxSyscall::Getcwd
    } else if num == 80 {
        LinuxSyscall::Chdir
    } else if num == 83 {
        LinuxSyscall::Mkdir
    } else if num == 84 {
        LinuxSyscall::Rmdir
    } else if num == 87 {
        LinuxSyscall::Unlink
    } else if num == 96 {
        LinuxSyscall::Gettimeofday
    } else if num == 102 {
        LinuxSyscall::Getuid
    } else if num == 104 {
        LinuxSyscall::Getgid
    } else if num == 107 {
        LinuxSyscall::Geteuid
    } else if num == 108 {
        LinuxSyscall::Getegid
    } else if num == 110 {
        LinuxSyscall::Getppid
    } else if num == 158 {
        LinuxSyscall::ArchPrctl
    } else if num == 186 {
        LinuxSyscall::Gettid
    } else if num == 200 {
        LinuxSyscall::Tkill
    } else if num == 202 {
        LinuxSyscall::Futex
    } else if num == 217 {
        LinuxSyscall::Getdents64
    } else if num == 218 {
        LinuxSyscall::SetTidAddress
    } else if num == 228 {
        LinuxSyscall::ClockGettime
    } else if num == 231 {
        LinuxSyscall::ExitGroup
    } else if num == 234 {
        LinuxSyscall::Tgkill
    } else if num == 257 {
        LinuxSyscall::Openat
    } else if num == 262 {
        LinuxSyscall::Newfstatat
    } else if num == 263 {
        LinuxSyscall::Unlinkat
    } else if num == 269 {
        LinuxSyscall::Faccessat
    } else if num == 284 {
        LinuxSyscall::Eventfd
    } else if num == 290 {
        LinuxSyscall::Eventfd2
    } else if num == 292 {
        LinuxSyscall::Dup3
    } else if num == 293 {
        LinuxSyscall::Pipe2
    } else if num == 302 {
        LinuxSyscall::Prlimit64
    } else if num == 318 {
        LinuxSyscall::Getrandom
    } else if num == 319 {
        LinuxSyscall::MemfdCreate
    } else if num == 449 {
        LinuxSyscall::FutexWaitv
    } else {
        LinuxSyscall::Unknown(num)
    }
}

/// The x86_64 number of a system call.
pub open spec fn spec_syscall_number(s: LinuxSyscall) -> u64 {
    match s {
        LinuxSyscall::Read => 0,
        LinuxSyscall::Write => 1,
        LinuxSyscall::Open => 2,
        LinuxSyscall::Close => 3,
        LinuxSyscall::Stat => 4,
        LinuxSyscall::Fstat => 5,
        LinuxSyscall::Lstat => 6,
        LinuxSyscall::Lseek => 8,
        LinuxSyscall::Mmap => 9,
        LinuxSyscall::Mprotect => 10,
        LinuxSyscall::Munmap => 11,
        LinuxSyscall::Brk => 12,
        LinuxSyscall::RtSigaction => 13,
        LinuxSyscall::RtSigprocmask => 14,
        LinuxSyscall::RtSigreturn => 15,
        LinuxSyscall::Access => 21,
        LinuxSyscall::Pipe => 22,
        LinuxSyscall::Dup => 32,
        LinuxSyscall::Dup2 => 33,
        LinuxSyscall::Nanosleep => 35,
        LinuxSyscall::Getpid => 39,
        LinuxSyscall::Clone => 56,
        LinuxSyscall::Fork => 57,
        LinuxSyscall::Vfork => 58,
        LinuxSyscall::Execve => 59,
        LinuxSyscall::Exit => 60,
        LinuxSyscall::Wait4 => 61,
        LinuxSyscall::Kill => 62,
        LinuxSyscall::Uname => 63,
        LinuxSyscall::Getcwd => 79,
        LinuxSyscall::Chdir => 80,
        LinuxSyscall::Mkdir => 83,
        LinuxSyscall::Rmdir => 84,
        LinuxSyscall::Unlink => 87,
        LinuxSyscall::Gettimeofday => 96,
        LinuxSyscall::Getuid => 102,
        LinuxSyscall::Getgid => 104,
        LinuxSyscall::Geteuid => 107,
        LinuxSyscall::Getegid => 108,
        LinuxSyscall::Getppid => 110,
        LinuxSyscall::ArchPrctl => 158,
        LinuxSyscall::Gettid => 186,
        LinuxSyscall::Tkill => 200,
        LinuxSyscall::Futex => 202,
        LinuxSyscall::Getdents64 => 217,
        LinuxSyscall::SetTidAddress => 218,
        LinuxSyscall::ClockGettime => 228,
        LinuxSyscall::ExitGroup => 231,
        LinuxSyscall::Tgkill => 234,
        LinuxSyscall::Openat => 257,
        LinuxSyscall::Newfstatat => 262,
        LinuxSyscall::Unlinkat => 263,
        LinuxSyscall::Faccessat => 269,
        LinuxSyscall::Eventfd => 284,
        LinuxSyscall::Eventfd2 => 290,
        LinuxSyscall::Dup3 => 292,
        LinuxSyscall::Pipe2 => 293,
        LinuxSyscall::Prlimit64 => 302,
        LinuxSyscall::Getrandom => 318,
        LinuxSyscall::MemfdCreate => 319,
        LinuxSyscall::FutexWaitv => 449,
        LinuxSyscall::Unknown(n) => n,
    }
}

/// The name of a system call ("unknown" for unknown numbers).
pub open spec fn spec_syscall_name(s: LinuxSyscall) -> &'static str {
    match s {
        LinuxSyscall::Read => "read",
        LinuxSyscall::Write => "write",
        LinuxSyscall::Open => "open",
        LinuxSyscall::Close => "close",
        LinuxSyscall::Stat => "stat",
        LinuxSyscall::Fstat => "fstat",
        LinuxSyscall::Lstat => "lstat",
        LinuxSyscall::Lseek => "lseek",
        LinuxSyscall::Mmap => "mmap",
        LinuxSyscall::Mprotect => "mprotect",
        LinuxSyscall::Munmap => "munmap",
        LinuxSyscall::Brk => "brk",
        LinuxSyscall::RtSigaction => "rt_sigaction",
        LinuxSyscall::RtSigprocmask => "rt_sigprocmask",
        LinuxSyscall::RtSigreturn => "rt_sigreturn",
        LinuxSyscall::Access => "access",
        LinuxSyscall::Pipe => "pipe",
        LinuxSyscall::Dup => "dup",
        LinuxSyscall::Dup2 => "dup2",
        LinuxSyscall::Nanosleep => "nanosleep",
        LinuxSyscall::Getpid => "getpid",
        LinuxSyscall::Clone => "clone",
        LinuxSyscall::Fork => "fork",
        LinuxSyscall::Vfork => "vfork",
        LinuxSyscall::Execve => "execve",
        LinuxSyscall::Exit => "exit",
        LinuxSyscall::Wait4 => "wait4",
        LinuxSyscall::Kill => "kill",
        LinuxSyscall::Uname => "uname",
        LinuxSyscall::Getcwd => "getcwd",
        LinuxSyscall::Chdir => "chdir",
        LinuxSyscall::Mkdir => "mkdir",
        LinuxSyscall::Rmdir => "rmdir",
        LinuxSyscall::Unlink => "unlink",
        LinuxSyscall::Gettimeofday => "gettimeofday",
        LinuxSyscall::Getuid => "getuid",
        LinuxSyscall::Getgid => "getgid",
        LinuxSyscall::Geteuid => "geteuid",
        LinuxSyscall::Getegid => "getegid",
        LinuxSyscall::Getppid => "getppid",
        LinuxSyscall::ArchPrctl => "arch_prctl",
        LinuxSyscall::Gettid => "gettid",
        LinuxSyscall::Tkill => "tkill",
        LinuxSyscall::Futex => "futex",
        LinuxSyscall::Getdents64 => "getdents64",
        LinuxSyscall::SetTidAddress => "set_tid_address",
        LinuxSyscall::ClockGettime => "clock_gettime",
        LinuxSyscall::ExitGroup => "exit_group",
        LinuxSyscall::Tgkill => "tgkill",
        LinuxSyscall::Openat => "openat",
        LinuxSyscall::Newfstatat => "newfstatat",
        LinuxSyscall::Unlinkat => "unlinkat",
        LinuxSyscall::Faccessat => "faccessat",
        LinuxSyscall::Eventfd => "eventfd",
        LinuxSyscall::Eventfd2 => "eventfd2",
        LinuxSyscall::Dup3 => "dup3",
        LinuxSyscall::Pipe2 => "pipe2",
        LinuxSyscall::Prlimit64 => "prlimit64",
        LinuxSyscall::Getrandom => "getrandom",
        LinuxSyscall::MemfdCreate => "memfd_create",
        LinuxSyscall::FutexWaitv => "futex_waitv",
        LinuxSyscall::Unknown(_) => "unknown",
    }
}

impl LinuxSyscall {
    /// The system call of an x86_64 syscall number.
    pub fn from_number(num: u64) -> (s: Self)
        ensures
            s == spec_syscall_of(num),
    {
        match num {
            0 => LinuxSyscall::Read,
            1 => LinuxSyscall::Write,
            2 => LinuxSyscall::Open,
            3 => LinuxSyscall::Close,
            4 => LinuxSyscall::Stat,
            5 => LinuxSyscall::Fstat,
            6 => LinuxSyscall::Lstat,
            8 => LinuxSyscall::Lseek,
            9 => LinuxSyscall::Mmap,
            10 => LinuxSyscall::Mprotect,
            11 => LinuxSyscall::Munmap,
            12 => LinuxSyscall::Brk,
            13 => LinuxSyscall::RtSigaction,
            14 => LinuxSyscall::RtSigprocmask,
            15 => LinuxSyscall::RtSigreturn,
            21 => LinuxSyscall::Access,
            22 => LinuxSyscall::Pipe,
            32 => LinuxSyscall::Dup,
            33 => LinuxSyscall::Dup2,
            35 => LinuxSyscall::Nanosleep,
            39 => LinuxSyscall::Getpid,
            56 => LinuxSyscall::Clone,
            57 => LinuxSyscall::Fork,
            58 => LinuxSyscall::Vfork,
            59 => LinuxSyscall::Execve,
            60 => LinuxSyscall::Exit,
            61 => LinuxSyscall::Wait4,
            62 => LinuxSyscall::Kill,
            63 => LinuxSyscall::Uname,
            79 => LinuxSyscall::Getcwd,
            80 => LinuxSyscall::Chdir,
            83 => LinuxSyscall::Mkdir,
            84 => LinuxSyscall::Rmdir,
            87 => LinuxSyscall::Unlink,
            96 => LinuxSyscall::Gettimeofday,
            102 => LinuxSyscall::Getuid,
            104 => LinuxSyscall::Getgid,
            107 => LinuxSyscall::Geteuid,
            108 => LinuxSyscall::Getegid,
            110 => LinuxSyscall::Getppid,
            158 => LinuxSyscall::ArchPrctl,
            186 => LinuxSyscall::Gettid,
            200 => LinuxSyscall::Tkill,
            202 => LinuxSyscall::Futex,
            217 => LinuxSyscall::Getdents64,
            218 => LinuxSyscall::SetTidAddress,
            228 => LinuxSyscall::ClockGettime,
            231 => LinuxSyscall::ExitGroup,
            234 => LinuxSyscall::Tgkill,
            257 => LinuxSyscall::Openat,
            262 => LinuxSyscall::Newfstatat,
            263 => LinuxSyscall::Unlinkat,
            269 => LinuxSyscall::Faccessat,
            284 => LinuxSyscall::Eventfd,
            290 => LinuxSyscall::Eventfd2,
            292 => LinuxSyscall::Dup3,
            293 => LinuxSyscall::Pipe2,
            302 => LinuxSyscall::Prlimit64,
            318 => LinuxSyscall::Getrandom,
            319 => LinuxSyscall::MemfdCreate,
            449 => LinuxSyscall::FutexWaitv,
            _ => LinuxSyscall::Unknown(num),
        }
    }

    /// The x86_64 number of the system call.
    pub fn number(&self) -> (n: u64)
        ensures
            n == spec_syscall_number(*self),
    {
        match self {
            LinuxSyscall::Read => 0,
            LinuxSyscall::Write => 1,
            LinuxSyscall::Open => 2,
            LinuxSyscall::Close => 3,
            LinuxSyscall::Stat => 4,
            LinuxSyscall::Fstat => 5,
            LinuxSyscall::Lstat => 6,
            LinuxSyscall::Lseek => 8,
            LinuxSyscall::Mmap => 9,
            LinuxSyscall::Mprotect => 10,
            LinuxSyscall::Munmap => 11,
            LinuxSyscall::Brk => 12,
            LinuxSyscall::RtSigaction => 13,
            LinuxSyscall::RtSigprocmask => 14,
            LinuxSyscall::RtSigreturn => 15,
            LinuxSyscall::Access => 21,
            LinuxSyscall::Pipe => 22,
            LinuxSyscall::Dup => 32,
            LinuxSyscall::Dup2 => 33,
            LinuxSyscall::Nanosleep => 35,
            LinuxSyscall::Getpid => 39,
            LinuxSyscall::Clone => 56,
            LinuxSyscall::Fork => 57,
            LinuxSyscall::Vfork => 58,
            LinuxSyscall::Execve => 59,
            LinuxSyscall::Exit => 60,
            LinuxSyscall::Wait4 => 61,
            LinuxSyscall::Kill => 62,
            LinuxSyscall::Uname => 63,
            LinuxSyscall::Getcwd => 79,
            LinuxSyscall::Chdir => 80,
            LinuxSyscall::Mkdir => 83,
            LinuxSyscall::Rmdir => 84,
            LinuxSyscall::Unlink => 87,
            LinuxSyscall::Gettimeofday => 96,
            LinuxSyscall::Getuid => 102,
            LinuxSyscall::Getgid => 104,
            LinuxSyscall::Geteuid => 107,
            LinuxSyscall::Getegid => 108,
            LinuxSyscall::Getppid => 110,
            LinuxSyscall::ArchPrctl => 158,
            LinuxSyscall::Gettid => 186,
            LinuxSyscall::Tkill => 200,
            LinuxSyscall::Futex => 202,
            LinuxSyscall::Getdents64 => 217,
            LinuxSyscall::SetTidAddress => 218,
            LinuxSyscall::ClockGettime => 228,
            LinuxSyscall::ExitGroup => 231,
            LinuxSyscall::Tgkill => 234,
            LinuxSyscall::Openat => 257,
            LinuxSyscall::Newfstatat => 262,
            LinuxSyscall::Unlinkat => 263,
            LinuxSyscall::Faccessat => 269,
            LinuxSyscall::Eventfd => 284,
            LinuxSyscall::Eventfd2 => 290,
            LinuxSyscall::Dup3 => 292,
            LinuxSyscall::Pipe2 => 293,
            LinuxSyscall::Prlimit64 => 302,
            LinuxSyscall::Getrandom => 318,
            LinuxSyscall::MemfdCreate => 319,
            LinuxSyscall::FutexWaitv => 449,
            LinuxSyscall::Unknown(n) => *n,
        }
    }

    /// The name of the system call.
    pub fn name(&self) -> (r: &'static str)
        ensures
            r@ == spec_syscall_name(*self)@,
    {
        match self {
            LinuxSyscall::Read => "read",
            LinuxSyscall::Write => "write",
            LinuxSyscall::Open => "open",
            LinuxSyscall::Close => "close",
            LinuxSyscall::Stat => "stat",
            LinuxSyscall::Fstat => "fstat",
            LinuxSyscall::Lstat => "lstat",
            LinuxSyscall::Lseek => "lseek",
            LinuxSyscall::Mmap => "mmap",
            LinuxSyscall::Mprotect => "mprotect",
            LinuxSyscall::Munmap => "munmap",
            LinuxSyscall::Brk => "brk",
            LinuxSyscall::RtSigaction => "rt_sigaction",
            LinuxSyscall::RtSigprocmask => "rt_sigprocmask",
            LinuxSyscall::RtSigreturn => "rt_sigreturn",
            LinuxSyscall::Access => "access",
            LinuxSyscall::Pipe => "pipe",
            LinuxSyscall::Dup => "dup",
            LinuxSyscall::Dup2 => "dup2",
            LinuxSyscall::Nanosleep => "nanosleep",
            LinuxSyscall::Getpid => "getpid",
            LinuxSyscall::Clone => "clone",
            LinuxSyscall::Fork => "fork",
            LinuxSyscall::Vfork => "vfork",
            LinuxSyscall::Execve => "execve",
            LinuxSyscall::Exit => "exit",
            LinuxSyscall::Wait4 => "wait4",
            LinuxSyscall::Kill => "kill",
            LinuxSyscall::Uname => "uname",
            LinuxSyscall::Getcwd => "getcwd",
            LinuxSyscall::Chdir => "chdir",
            LinuxSyscall::Mkdir => "mkdir",
            LinuxSyscall::Rmdir => "rmdir",
            LinuxSyscall::Unlink => "unlink",
            LinuxSyscall::Gettimeofday => "gettimeofday",
            LinuxSyscall::Getuid => "getuid",
            LinuxSyscall::Getgid => "getgid",
            LinuxSyscall::Geteuid => "geteuid",
            LinuxSyscall::Getegid => "getegid",
            LinuxSyscall::Getppid => "getppid",
            LinuxSyscall::ArchPrctl => "arch_prctl",
            LinuxSyscall::Gettid => "gettid",
            LinuxSyscall::Tkill => "tkill",
            LinuxSyscall::Futex => "futex",
            LinuxSyscall::Getdents64 => "getdents64",
            LinuxSyscall::SetTidAddress => "set_tid_address",
            LinuxSyscall::ClockGettime => "clock_gettime",
            LinuxSyscall::ExitGroup => "exit_group",
            LinuxSyscall::Tgkill => "tgkill",
            LinuxSyscall::Openat => "openat",
            LinuxSyscall::Newfstatat => "newfstatat",
            LinuxSyscall::Unlinkat => "unlinkat",
            LinuxSyscall::Faccessat => "faccessat",
            LinuxSyscall::Eventfd => "eventfd",
            LinuxSyscall::Eventfd2 => "eventfd2",
            LinuxSyscall::Dup3 => "dup3",
            LinuxSyscall::Pipe2 => "pipe2",
            LinuxSyscall::Prlimit64 => "prlimit64",
            LinuxSyscall::Getrandom => "getrandom",
            LinuxSyscall::MemfdCreate => "memfd_create",
            LinuxSyscall::FutexWaitv => "futex_waitv",
            LinuxSyscall::Unknown(_) => "unknown",
        }
    }
}

/// Reading a syscall back from its number gives the same syscall: the
/// numbering is one-to-one (an `Unknown` number must be one no known call
/// has).
pub proof fn lemma_syscall_number_roundtrip(s: LinuxSyscall)
    requires
        s matches LinuxSyscall::Unknown(n) ==> spec_syscall_of(n) is Unknown,
    ensures
        spec_syscall_of(spec_syscall_number(s)) == s,
{
}

} // verus!
