//! Translation of Linux system calls: the descriptor table the layer keeps
//! for a Linux program, path mapping, and the dispatch of each call to its
//! handler. Work that needs the host (killing a process, creating a shared
//! memory file, futex calls) comes back as a request for the caller.
pub mod access_mode;
pub mod at_flags;
pub mod open_flags;
pub mod seek_whence;

use vstd::prelude::*;
use vstd::string::StringExecFns;
use vstd::string::StrSliceExecFns;
use std::collections::HashMap;
use super::errno::{LinuxErrno, spec_errno_code, spec_errno_from_redox};
use super::process::Process;
use super::signal::{
    LinuxSigAction, SigAction, Signal, SignalHandler, handler_index, is_signal_number,
    lemma_signal_number_injective, spec_signal_number,
};
use super::syscall_table::{LinuxSyscall, spec_syscall_of};
use self::open_flags::{O_RDONLY, O_WRONLY};

verus! {

broadcast use vstd::std_specs::hash::group_hash_axioms;

/// Syscall context: the call number and argument registers.
#[derive(Debug, Clone, Copy)]
pub struct SyscallContext {
    /// Syscall number.
    pub syscall_num: u64,
    /// First argument (rdi).
    pub arg0: u64,
    /// Second argument (rsi).
    pub arg1: u64,
    /// Third argument (rdx).
    pub arg2: u64,
    /// Fourth argument (r10).
    pub arg3: u64,
    /// Fifth argument (r8).
    pub arg4: u64,
    /// Sixth argument (r9).
    pub arg5: u64,
    /// Instruction pointer.
    pub rip: u64,
    /// Stack pointer.
    pub rsp: u64,
}

impl Default for SyscallContext {
    fn default() -> (c: Self)
        ensures
            c.syscall_num == 0 && c.arg0 == 0 && c.arg1 == 0 && c.arg2 == 0 && c.arg3 == 0
                && c.arg4 == 0 && c.arg5 == 0 && c.rip == 0 && c.rsp == 0,
    {
        SyscallContext { syscall_num: 0, arg0: 0, arg1: 0, arg2: 0, arg3: 0, arg4: 0, arg5: 0, rip: 0, rsp: 0 }
    }
}

impl SyscallContext {
    /// The Linux system call this context asks for.
    pub fn syscall(&self) -> (s: LinuxSyscall)
        ensures
            s == spec_syscall_of(self.syscall_num),
    {
        LinuxSyscall::from_number(self.syscall_num)
    }
}

/// Syscall result.
#[derive(Debug, Clone, Copy, PartialEq, Eq, Structural)]
pub enum SyscallResult {
    /// Success with return value.
    Success(i64),
    /// Error with errno.
    Error(LinuxErrno),
    /// Syscall not yet implemented.
    NotImplemented,
}

/// The raw return value of a result: the value, or the negated errno.
pub open spec fn spec_raw(r: SyscallResult) -> i64 {
    match r {
        SyscallResult::Success(v) => v,
        SyscallResult::Error(e) => (-spec_errno_code(e)) as i64,
        SyscallResult::NotImplemented => -38i64,
    }
}

impl SyscallResult {
    /// The result of a failed host call with Redox error number `errno`.
    pub fn from_error(errno: i32) -> (r: Self)
        ensures
            errno >= 0 ==> r == SyscallResult::Error(spec_errno_from_redox(errno as usize)),
            errno < 0 ==> r == SyscallResult::Error(LinuxErrno::EIO),
    {
        if errno < 0 {
            SyscallResult::Error(LinuxErrno::EIO)
        } else {
            SyscallResult::Error(LinuxErrno::from_redox(errno as usize))
        }
    }

    /// The raw return value (Linux convention: negative for an error).
    pub fn to_raw(&self) -> (v: i64)
        ensures
            v == spec_raw(*self),
    {
        match self {
            SyscallResult::Success(val) => *val,
            SyscallResult::Error(errno) => -(errno.code() as i64),
            SyscallResult::NotImplemented => -(LinuxErrno::ENOSYS.code() as i64),
        }
    }
}

/// Backing of a descriptor: a host file (by the caller's handle) or an
/// event counter (by its id).
#[derive(Debug, Clone, Copy, PartialEq, Eq, Structural)]
pub enum FileBacking {
    Native(u64),
    EventFd(u64),
}

/// A descriptor of the translated program.
#[derive(Debug, Clone)]
pub struct FileDescriptor {
    backing: Option<FileBacking>,
    path: String,
    flags: i32,
    is_pipe: bool,
}

/// A descriptor as plain values.
pub struct FdView {
    pub backing: Option<FileBacking>,
    pub path: Seq<char>,
    pub flags: i32,
    pub is_pipe: bool,
}

impl FileDescriptor {
    /// The descriptor as plain values.
    pub closed spec fn view_of(&self) -> FdView {
        FdView { backing: self.backing, path: self.path@, flags: self.flags, is_pipe: self.is_pipe }
    }
}

/// The translator's descriptor state as plain values.
pub struct TView {
    pub fds: Map<i32, FdView>,
    pub counters: Map<u64, u64>,
    pub next_fd: i32,
    pub next_counter: u64,
}

/// A request for work on the host that finishes a call.
#[derive(Debug, Clone, Copy, PartialEq, Eq, Structural)]
pub enum HostRequest {
    /// Send Redox signal `signal` to process `pid`.
    Kill { pid: usize, signal: usize },
    /// Create the shared memory file `memfd_<pid>_<name_fd>` and report it
    /// with `finish_memfd_create`.
    MemfdCreate { name_fd: i32 },
    /// Run the futex call with these arguments.
    Futex { uaddr: usize, op: usize, val: usize, timeout: usize, uaddr2: usize },
    /// Run the futex_waitv call with these arguments.
    FutexWaitv { waiters: usize, count: usize, flags: usize, timeout: usize, clockid: usize },
}

/// What translating a call produced.
#[derive(Debug, Clone, Copy)]
pub enum Translation {
    /// The call is done with this result.
    Done(SyscallResult),
    /// `rt_sigaction` is done with this result; the previous action is to be
    /// copied out when the call asked for it.
    Sigaction { result: SyscallResult, old_action: Option<LinuxSigAction> },
    /// The call needs the host.
    Host(HostRequest),
}

/// A descriptor as the table holds it.
pub open spec fn fd_view(backing: Option<FileBacking>, path: Seq<char>, flags: i32, is_pipe: bool) -> FdView {
    FdView { backing, path, flags, is_pipe }
}

/// The state after numbering a new descriptor.
pub open spec fn bump_fd(v: TView) -> TView {
    TView { next_fd: v.next_fd.wrapping_add(1), ..v }
}

/// The state with descriptor `fd` set to `d`.
pub open spec fn put_fd(v: TView, fd: i32, d: FdView) -> TView {
    TView { fds: v.fds.insert(fd, d), ..v }
}

/// `read`: host files read nothing; an event counter needs 8 bytes, is
/// `EAGAIN` at zero and is otherwise reset; standard input without backing
/// reads nothing.
pub open spec fn read_step(v: TView, ctx: SyscallContext) -> (SyscallResult, TView) {
    let fd = ctx.arg0 as i32;
    let count = ctx.arg2 as usize;
    if !v.fds.contains_key(fd) {
        (SyscallResult::Error(LinuxErrno::EBADF), v)
    } else {
        match v.fds[fd].backing {
            Some(FileBacking::Native(_)) => (SyscallResult::Success(0), v),
            Some(FileBacking::EventFd(c)) => if count < 8 {
                (SyscallResult::Error(LinuxErrno::EINVAL), v)
            } else if v.counters[c] == 0 {
                (SyscallResult::Error(LinuxErrno::EAGAIN), v)
            } else {
                (SyscallResult::Success(8), TView { counters: v.counters.insert(c, 0), ..v })
            },
            None => if fd == 0 {
                (SyscallResult::Success(0), v)
            } else {
                (SyscallResult::Error(LinuxErrno::EBADF), v)
            },
        }
    }
}

/// `write`: host files take everything; an event counter needs 8 bytes and
/// counts up by one (saturating); standard output and error without backing
/// take everything.
pub open spec fn write_step(v: TView, ctx: SyscallContext) -> (SyscallResult, TView) {
    let fd = ctx.arg0 as i32;
    let count = ctx.arg2 as usize;
    if !v.fds.contains_key(fd) {
        (SyscallResult::Error(LinuxErrno::EBADF), v)
    } else {
        match v.fds[fd].backing {
            Some(FileBacking::Native(_)) => (SyscallResult::Success(count as i64), v),
            Some(FileBacking::EventFd(c)) => if count < 8 {
                (SyscallResult::Error(LinuxErrno::EINVAL), v)
            } else {
                (
                    SyscallResult::Success(8),
                    TView { counters: v.counters.insert(c, v.counters[c].saturating_add(1)), ..v },
                )
            },
            None => if fd == 1 || fd == 2 {
                (SyscallResult::Success(count as i64), v)
            } else {
                (SyscallResult::Error(LinuxErrno::EBADF), v)
            },
        }
    }
}

/// `open` and `openat`: a new descriptor with no backing and the given
/// flags.
pub open spec fn open_step(v: TView, flags: i32) -> (SyscallResult, TView) {
    let fd = v.next_fd;
    (SyscallResult::Success(fd as i64), put_fd(bump_fd(v), fd, fd_view(None, Seq::empty(), flags, false)))
}

/// `close`.
pub open spec fn close_step(v: TView, ctx: SyscallContext) -> (SyscallResult, TView) {
    let fd = ctx.arg0 as i32;
    if v.fds.contains_key(fd) {
        (SyscallResult::Success(0), TView { fds: v.fds.remove(fd), ..v })
    } else {
        (SyscallResult::Error(LinuxErrno::EBADF), v)
    }
}

/// `dup`: a new descriptor sharing the backing of the old one.
pub open spec fn dup_step(v: TView, ctx: SyscallContext) -> (SyscallResult, TView) {
    let old = ctx.arg0 as i32;
    if v.fds.contains_key(old) {
        let fd = v.next_fd;
        (SyscallResult::Success(fd as i64), put_fd(bump_fd(v), fd, v.fds[old]))
    } else {
        (SyscallResult::Error(LinuxErrno::EBADF), v)
    }
}

/// `pipe` and `pipe2`: a read end and a write end, numbered in that order.
pub open spec fn pipe_step(v: TView) -> (SyscallResult, TView) {
    let r = v.next_fd;
    let w = v.next_fd.wrapping_add(1);
    let v2 = bump_fd(bump_fd(v));
    let v3 = put_fd(v2, r, fd_view(None, "pipe:read"@, O_RDONLY, true));
    (SyscallResult::Success(0), put_fd(v3, w, fd_view(None, "pipe:write"@, O_WRONLY, true)))
}

/// `eventfd` and `eventfd2`: a new descriptor over a new counter holding
/// the initial value.
pub open spec fn eventfd_step(v: TView, ctx: SyscallContext) -> (SyscallResult, TView) {
    let fd = v.next_fd;
    let c = v.next_counter;
    let v2 = TView {
        counters: v.counters.insert(c, ctx.arg0),
        next_counter: v.next_counter.wrapping_add(1),
        ..bump_fd(v)
    };
    (
        SyscallResult::Success(fd as i64),
        put_fd(v2, fd, fd_view(Some(FileBacking::EventFd(c)), "eventfd"@, ctx.arg1 as i32, false)),
    )
}

/// `kill`: signal 0 or a Redox-mapped signal, to the given process or (pid
/// 0) the caller; negative pids are not implemented.
pub open spec fn kill_step(ctx: SyscallContext, caller: u32) -> Translation {
    let pid = ctx.arg0 as i32;
    let sig = ctx.arg1 as i32;
    if sig != 0 && (!is_signal_number(sig) || sig == 16 || sig > 31) {
        Translation::Done(SyscallResult::Error(LinuxErrno::EINVAL))
    } else if pid > 0 {
        Translation::Host(HostRequest::Kill { pid: pid as usize, signal: sig as usize })
    } else if pid == 0 {
        Translation::Host(HostRequest::Kill { pid: caller as usize, signal: sig as usize })
    } else {
        Translation::Done(SyscallResult::NotImplemented)
    }
}

/// The Linux form of an action.
pub open spec fn linux_action_of(a: SigAction) -> LinuxSigAction {
    LinuxSigAction {
        sa_handler: match a.handler {
            SignalHandler::Default => 0,
            SignalHandler::Ignore => 1,
            SignalHandler::Handler(addr) => addr,
        },
        sa_flags: a.flags,
        sa_restorer: a.restorer,
        sa_mask: a.mask,
    }
}

/// The action of a Linux `sigaction` record.
pub open spec fn action_of_linux(l: LinuxSigAction) -> SigAction {
    SigAction {
        handler: if l.sa_handler == 0 {
            SignalHandler::Default
        } else if l.sa_handler == 1 {
            SignalHandler::Ignore
        } else {
            SignalHandler::Handler(l.sa_handler)
        },
        flags: l.sa_flags,
        restorer: l.sa_restorer,
        mask: l.sa_mask,
    }
}

/// Result of a call that only answers a constant or echoes an argument.
pub open spec fn plain_result(call: LinuxSyscall, ctx: SyscallContext) -> Option<SyscallResult> {
    match call {
        LinuxSyscall::Lseek => Some(SyscallResult::Success(ctx.arg1 as i64)),
        LinuxSyscall::Dup2 => Some(SyscallResult::Success((ctx.arg1 as i32) as i64)),
        LinuxSyscall::Dup3 => Some(if ctx.arg0 as i32 == ctx.arg1 as i32 {
            SyscallResult::Error(LinuxErrno::EINVAL)
        } else {
            SyscallResult::Success((ctx.arg1 as i32) as i64)
        }),
        LinuxSyscall::Getcwd | LinuxSyscall::Brk | LinuxSyscall::Mmap => Some(
            SyscallResult::Success(ctx.arg0 as i64),
        ),
        LinuxSyscall::Getrandom => Some(SyscallResult::Success((ctx.arg1 as usize) as i64)),
        LinuxSyscall::Getpid | LinuxSyscall::Gettid | LinuxSyscall::Getuid | LinuxSyscall::Geteuid
        | LinuxSyscall::Getgid | LinuxSyscall::Getegid | LinuxSyscall::SetTidAddress => Some(
            SyscallResult::Success(1000),
        ),
        LinuxSyscall::Getppid => Some(SyscallResult::Success(1)),
        LinuxSyscall::Access | LinuxSyscall::Faccessat | LinuxSyscall::Chdir | LinuxSyscall::Mkdir
        | LinuxSyscall::Rmdir | LinuxSyscall::Unlink | LinuxSyscall::Unlinkat | LinuxSyscall::Stat
        | LinuxSyscall::Fstat | LinuxSyscall::Lstat | LinuxSyscall::Newfstatat
        | LinuxSyscall::Getdents64 | LinuxSyscall::Exit | LinuxSyscall::ExitGroup
        | LinuxSyscall::Fork | LinuxSyscall::Vfork | LinuxSyscall::Clone | LinuxSyscall::Execve
        | LinuxSyscall::Wait4 | LinuxSyscall::Tkill | LinuxSyscall::Tgkill
        | LinuxSyscall::RtSigprocmask | LinuxSyscall::Munmap | LinuxSyscall::Mprotect
        | LinuxSyscall::ClockGettime | LinuxSyscall::Gettimeofday | LinuxSyscall::Nanosleep
        | LinuxSyscall::Uname | LinuxSyscall::Prlimit64 | LinuxSyscall::ArchPrctl => Some(
            SyscallResult::Success(0),
        ),
        LinuxSyscall::RtSigreturn | LinuxSyscall::Unknown(_) => Some(SyscallResult::NotImplemented),
        _ => None,
    }
}

/// The translation of every call but `rt_sigaction`, and the descriptor
/// state after it, for a caller with process id `caller`.
pub open spec fn translate_step(v: TView, ctx: SyscallContext, caller: u32) -> (Translation, TView) {
    let call = spec_syscall_of(ctx.syscall_num);
    match plain_result(call, ctx) {
        Some(r) => (Translation::Done(r), v),
        None => match call {
            LinuxSyscall::Read => (Translation::Done(read_step(v, ctx).0), read_step(v, ctx).1),
            LinuxSyscall::Write => (Translation::Done(write_step(v, ctx).0), write_step(v, ctx).1),
            LinuxSyscall::Open => (Translation::Done(open_step(v, ctx.arg1 as i32).0), open_step(v, ctx.arg1 as i32).1),
            LinuxSyscall::Openat => (Translation::Done(open_step(v, ctx.arg2 as i32).0), open_step(v, ctx.arg2 as i32).1),
            LinuxSyscall::Close => (Translation::Done(close_step(v, ctx).0), close_step(v, ctx).1),
            LinuxSyscall::Dup => (Translation::Done(dup_step(v, ctx).0), dup_step(v, ctx).1),
            LinuxSyscall::Pipe | LinuxSyscall::Pipe2 => (Translation::Done(pipe_step(v).0), pipe_step(v).1),
            LinuxSyscall::Eventfd | LinuxSyscall::Eventfd2 => (Translation::Done(eventfd_step(v, ctx).0), eventfd_step(v, ctx).1),
            LinuxSyscall::Kill => (kill_step(ctx, caller), v),
            LinuxSyscall::MemfdCreate => (Translation::Host(HostRequest::MemfdCreate { name_fd: v.next_fd }), bump_fd(v)),
            LinuxSyscall::Futex => (
                Translation::Host(HostRequest::Futex {
                    uaddr: ctx.arg0 as usize,
                    op: ctx.arg1 as usize,
                    val: ctx.arg2 as usize,
                    timeout: ctx.arg3 as usize,
                    uaddr2: ctx.arg4 as usize,
                }),
                v,
            ),
            LinuxSyscall::FutexWaitv => (
                Translation::Host(HostRequest::FutexWaitv {
                    waiters: ctx.arg0 as usize,
                    count: ctx.arg1 as usize,
                    flags: ctx.arg2 as usize,
                    timeout: ctx.arg3 as usize,
                    clockid: ctx.arg4 as usize,
                }),
                v,
            ),
            _ => (Translation::Done(SyscallResult::NotImplemented), v),
        },
    }
}

/// The translator's state is consistent: every event counter a descriptor
/// names exists.
pub open spec fn counters_ok(v: TView) -> bool {
    forall|fd: i32|
        #[trigger] v.fds.contains_key(fd) ==> (v.fds[fd].backing matches Some(FileBacking::EventFd(c))
            ==> v.counters.contains_key(c))
}

/// Whether `m` maps some key equal to `path`; the first such mapping.
pub open spec fn exact_mapping(m: Seq<(String, String)>, path: Seq<char>, i: int) -> bool {
    &&& 0 <= i < m.len()
    &&& m[i].0@ == path
    &&& forall|j: int| 0 <= j < i ==> #[trigger] m[j].0@ != path
}

/// Whether `m[i]` is the first mapping whose key (not `/`) is a prefix of
/// `path`, with no key equal to `path`.
pub open spec fn prefix_mapping(m: Seq<(String, String)>, path: Seq<char>, i: int) -> bool {
    &&& 0 <= i < m.len()
    &&& is_prefix_key(m[i].0@, path)
    &&& forall|j: int| 0 <= j < i ==> !is_prefix_key(#[trigger] m[j].0@, path)
}

/// `k` is a prefix of `path` other than `/`.
pub open spec fn is_prefix_key(k: Seq<char>, path: Seq<char>) -> bool {
    k.len() <= path.len() && path.subrange(0, k.len() as int) == k && k != "/"@
}

/// Where a Linux path goes: the mapping of an equal key, else the mapping
/// of the first prefix key followed by the rest of the path, else the path
/// under `file:`.
pub open spec fn translated_path(m: Seq<(String, String)>, path: Seq<char>) -> Seq<char> {
    if exists|i: int| exact_mapping(m, path, i) {
        m[choose|i: int| exact_mapping(m, path, i)].1@
    } else if exists|i: int| prefix_mapping(m, path, i) {
        let i = choose|i: int| prefix_mapping(m, path, i);
        m[i].1@ + path.subrange(m[i].0@.len() as int, path.len() as int)
    } else {
        "file:"@ + path
    }
}

/// Syscall translator.
pub struct SyscallTranslator {
    path_mappings: Vec<(String, String)>,
    fds: HashMap<i32, FileDescriptor>,
    counters: HashMap<u64, u64>,
    next_fd: i32,
    next_counter: u64,
}

impl SyscallTranslator {
    /// The path mappings (Linux prefix, Redox prefix), in order.
    pub closed spec fn mappings(&self) -> Seq<(String, String)> {
        self.path_mappings@
    }

    /// The descriptor state as plain values.
    pub closed spec fn tview(&self) -> TView {
        TView {
            fds: self.fds@.map_values(|d: FileDescriptor| d.view_of()),
            counters: self.counters@,
            next_fd: self.next_fd,
            next_counter: self.next_counter,
        }
    }

    /// The translator's invariant.
    pub open spec fn wf(&self) -> bool {
        counters_ok(self.tview())
    }
}


/// `rt_sigaction` on a handler table: the result, the previous action when
/// asked for (`arg2` not null), and the table after. The set size must be
/// 8; an unknown signal is `EINVAL`; setting (`arg1` not null) the action of
/// SIGKILL or SIGSTOP is `EINVAL` after the previous action was read.
pub open spec fn sigaction_step(
    ctx: SyscallContext,
    handlers: Seq<SigAction>,
    user_act: Option<LinuxSigAction>,
) -> (SyscallResult, Option<LinuxSigAction>, Seq<SigAction>) {
    let num = ctx.arg0 as i32;
    if ctx.arg3 as usize != 8 || !is_signal_number(num) {
        (SyscallResult::Error(LinuxErrno::EINVAL), None, handlers)
    } else {
        let idx = num - 1;
        let old = if ctx.arg2 != 0 {
            Some(linux_action_of(handlers[idx]))
        } else {
            None
        };
        if ctx.arg1 == 0 {
            (SyscallResult::Success(0), old, handlers)
        } else if num == 9 || num == 19 {
            (SyscallResult::Error(LinuxErrno::EINVAL), old, handlers)
        } else {
            (SyscallResult::Success(0), old, handlers.update(idx, action_of_linux(user_act.unwrap())))
        }
    }
}

/// Converts a Linux `sigaction` record to an action.
fn to_action(l: LinuxSigAction) -> (a: SigAction)
    ensures
        a == action_of_linux(l),
{
    let handler = if l.sa_handler == 0 {
        SignalHandler::Default
    } else if l.sa_handler == 1 {
        SignalHandler::Ignore
    } else {
        SignalHandler::Handler(l.sa_handler)
    };
    SigAction { handler, flags: l.sa_flags, restorer: l.sa_restorer, mask: l.sa_mask }
}

/// Converts an action to its Linux `sigaction` record.
fn to_linux_action(a: SigAction) -> (l: LinuxSigAction)
    ensures
        l == linux_action_of(a),
{
    let sa_handler = match a.handler {
        SignalHandler::Default => 0,
        SignalHandler::Ignore => 1,
        SignalHandler::Handler(addr) => addr,
    };
    LinuxSigAction { sa_handler, sa_flags: a.flags, sa_restorer: a.restorer, sa_mask: a.mask }
}

/// Whether `p` begins with the characters of `k`.
fn starts_with_chars(p: &str, k: &str) -> (b: bool)
    ensures
        b == (k@.len() <= p@.len() && p@.subrange(0, k@.len() as int) == k@),
{
    let kl = k.unicode_len();
    let pl = p.unicode_len();
    if kl > pl {
        return false;
    }
    let mut i: usize = 0;
    while i < kl
        invariant
            kl == k@.len(),
            pl == p@.len(),
            kl <= pl,
            0 <= i <= kl,
            forall|j: int| 0 <= j < i ==> #[trigger] p@[j] == k@[j],
        decreases kl - i,
    {
        if p.get_char(i) != k.get_char(i) {
            assert(p@.subrange(0, kl as int)[i as int] != k@[i as int]);
            return false;
        }
        i = i + 1;
    }
    assert(p@.subrange(0, kl as int) =~= k@);
    true
}

/// The first index satisfying `exact_mapping` is unique.
proof fn lemma_exact_unique(m: Seq<(String, String)>, path: Seq<char>, a: int, b: int)
    requires
        exact_mapping(m, path, a),
        exact_mapping(m, path, b),
    ensures
        a == b,
{
    if a < b {
        assert(m[a].0@ != path);
    } else if b < a {
        assert(m[b].0@ != path);
    }
}

/// The first index satisfying `prefix_mapping` is unique.
proof fn lemma_prefix_unique(m: Seq<(String, String)>, path: Seq<char>, a: int, b: int)
    requires
        prefix_mapping(m, path, a),
        prefix_mapping(m, path, b),
    ensures
        a == b,
{
    if a < b {
        assert(!is_prefix_key(m[a].0@, path));
    } else if b < a {
        assert(!is_prefix_key(m[b].0@, path));
    }
}

impl SyscallTranslator {
    /// A translator with the standard streams open as descriptors 0, 1 and
    /// 2 (host handles 0, 1 and 2) and numbering from 3.
    pub fn new(path_mappings: Vec<(String, String)>) -> (t: Self)
        ensures
            t.wf(),
            t.mappings() == path_mappings@,
            t.tview().next_fd == 3,
            t.tview().counters == Map::<u64, u64>::empty(),
            t.tview().fds.dom() == set![0i32, 1i32, 2i32],
            t.tview().fds[0] == fd_view(Some(FileBacking::Native(0)), "/dev/stdin"@, O_RDONLY, false),
            t.tview().fds[1] == fd_view(Some(FileBacking::Native(1)), "/dev/stdout"@, O_WRONLY, false),
            t.tview().fds[2] == fd_view(Some(FileBacking::Native(2)), "/dev/stderr"@, O_WRONLY, false),
    {
        let mut fds: HashMap<i32, FileDescriptor> = HashMap::new();
        fds.insert(0, FileDescriptor {
            backing: Some(FileBacking::Native(0)),
            path: "/dev/stdin".to_owned(),
            flags: O_RDONLY,
            is_pipe: false,
        });
        fds.insert(1, FileDescriptor {
            backing: Some(FileBacking::Native(1)),
            path: "/dev/stdout".to_owned(),
            flags: O_WRONLY,
            is_pipe: false,
        });
        fds.insert(2, FileDescriptor {
            backing: Some(FileBacking::Native(2)),
            path: "/dev/stderr".to_owned(),
            flags: O_WRONLY,
            is_pipe: false,
        });
        let t = SyscallTranslator {
            path_mappings,
            fds,
            counters: HashMap::new(),
            next_fd: 3,
            next_counter: 0,
        };
        assert(t.tview().fds.dom() =~= set![0i32, 1i32, 2i32]);
        t
    }

    /// Translates a Linux path to a Redox path.
    pub fn translate_path(&self, linux_path: &str) -> (r: String)
        ensures
            r@ == translated_path(self.mappings(), linux_path@),
    {
        let m = &self.path_mappings;
        let ghost ms = m@;
        let path = linux_path.to_owned();
        let mut i: usize = 0;
        while i < m.len()
            invariant
                ms == m@,
                ms == self.path_mappings@,
                path@ == linux_path@,
                0 <= i <= ms.len(),
                forall|j: int| 0 <= j < i ==> #[trigger] ms[j].0@ != linux_path@,
            decreases ms.len() - i,
        {
            if m[i].0 == path {
                proof {
                    assert(exact_mapping(ms, linux_path@, i as int));
                    let c = choose|c: int| exact_mapping(ms, linux_path@, c);
                    lemma_exact_unique(ms, linux_path@, i as int, c);
                    assert(translated_path(ms, linux_path@) == ms[i as int].1@);
                }
                let r = m[i].1.clone();
                assert(r@ == ms[i as int].1@);
                return r;
            }
            i = i + 1;
        }
        assert(!exists|c: int| exact_mapping(ms, linux_path@, c));
        let slash = "/".to_owned();
        proof {
            reveal_strlit("/");
        }
        let mut k: usize = 0;
        while k < m.len()
            invariant
                ms == m@,
                ms == self.path_mappings@,
                !exists|c: int| exact_mapping(ms, linux_path@, c),
                slash@ == "/"@,
                0 <= k <= ms.len(),
                forall|j: int| 0 <= j < k ==> !is_prefix_key(#[trigger] ms[j].0@, linux_path@),
            decreases ms.len() - k,
        {
            let key = m[k].0.as_str();
            if starts_with_chars(linux_path, key) && !(m[k].0 == slash) {
                let kl = key.unicode_len();
                let pl = linux_path.unicode_len();
                let suffix = linux_path.substring_char(kl, pl);
                let r = m[k].1.clone().concat(suffix);
                proof {
                    assert(prefix_mapping(ms, linux_path@, k as int));
                    let c = choose|c: int| prefix_mapping(ms, linux_path@, c);
                    lemma_prefix_unique(ms, linux_path@, k as int, c);
                    assert(translated_path(ms, linux_path@) == ms[k as int].1@ + linux_path@.subrange(
                        ms[k as int].0@.len() as int, linux_path@.len() as int));
                }
                assert(r@ == ms[k as int].1@ + linux_path@.subrange(
                        ms[k as int].0@.len() as int, linux_path@.len() as int));
                return r;
            }
            k = k + 1;
        }
        assert(!exists|c: int| prefix_mapping(ms, linux_path@, c));
        "file:".to_owned().concat(linux_path)
    }

    /// Numbers a new descriptor (wrapping).
    fn alloc_fd(&mut self) -> (fd: i32)
        ensures
            fd == old(self).tview().next_fd,
            final(self).tview() == bump_fd(old(self).tview()),
            final(self).mappings() == old(self).mappings(),
    {
        let fd = self.next_fd;
        self.next_fd = self.next_fd.wrapping_add(1);
        fd
    }

    /// Sets descriptor `fd` to `d`.
    fn put(&mut self, fd: i32, d: FileDescriptor)
        ensures
            final(self).tview() == put_fd(old(self).tview(), fd, d.view_of()),
            final(self).mappings() == old(self).mappings(),
    {
        self.fds.insert(fd, d);
        assert(self.tview().fds =~= old(self).tview().fds.insert(fd, d.view_of()));
    }

    fn sys_read(&mut self, ctx: &SyscallContext) -> (r: SyscallResult)
        requires
            old(self).wf(),
        ensures
            (r, final(self).tview()) == read_step(old(self).tview(), *ctx),
            final(self).mappings() == old(self).mappings(),
    {
        let fd = ctx.arg0 as i32;
        let count = ctx.arg2 as usize;
        let backing = match self.fds.get(&fd) {
            Some(d) => d.backing,
            None => {
                return SyscallResult::Error(LinuxErrno::EBADF);
            },
        };
        assert(self.tview().fds.contains_key(fd));
        match backing {
            Some(FileBacking::Native(_)) => SyscallResult::Success(0),
            Some(FileBacking::EventFd(c)) => {
                if count < 8 {
                    return SyscallResult::Error(LinuxErrno::EINVAL);
                }
                let current = match self.counters.get(&c) {
                    Some(v) => *v,
                    None => 0,
                };
                if current == 0 {
                    SyscallResult::Error(LinuxErrno::EAGAIN)
                } else {
                    self.counters.insert(c, 0);
                    SyscallResult::Success(8)
                }
            },
            None => {
                if fd == 0 {
                    SyscallResult::Success(0)
                } else {
                    SyscallResult::Error(LinuxErrno::EBADF)
                }
            },
        }
    }

    fn sys_write(&mut self, ctx: &SyscallContext) -> (r: SyscallResult)
        requires
            old(self).wf(),
        ensures
            (r, final(self).tview()) == write_step(old(self).tview(), *ctx),
            final(self).mappings() == old(self).mappings(),
    {
        let fd = ctx.arg0 as i32;
        let count = ctx.arg2 as usize;
        let backing = match self.fds.get(&fd) {
            Some(d) => d.backing,
            None => {
                return SyscallResult::Error(LinuxErrno::EBADF);
            },
        };
        assert(self.tview().fds.contains_key(fd));
        match backing {
            Some(FileBacking::Native(_)) => SyscallResult::Success(count as i64),
            Some(FileBacking::EventFd(c)) => {
                if count < 8 {
                    return SyscallResult::Error(LinuxErrno::EINVAL);
                }
                let current = match self.counters.get(&c) {
                    Some(v) => *v,
                    None => 0,
                };
                self.counters.insert(c, current.saturating_add(1));
                SyscallResult::Success(8)
            },
            None => {
                if fd == 1 || fd == 2 {
                    SyscallResult::Success(count as i64)
                } else {
                    SyscallResult::Error(LinuxErrno::EBADF)
                }
            },
        }
    }

    fn sys_open(&mut self, flags: i32) -> (r: SyscallResult)
        requires
            old(self).wf(),
        ensures
            (r, final(self).tview()) == open_step(old(self).tview(), flags),
            final(self).mappings() == old(self).mappings(),
    {
        let fd = self.alloc_fd();
        let d = FileDescriptor { backing: None, path: String::new(), flags, is_pipe: false };
        self.put(fd, d);
        SyscallResult::Success(fd as i64)
    }

    fn sys_close(&mut self, ctx: &SyscallContext) -> (r: SyscallResult)
        ensures
            (r, final(self).tview()) == close_step(old(self).tview(), *ctx),
            final(self).mappings() == old(self).mappings(),
    {
        let fd = ctx.arg0 as i32;
        if self.fds.remove(&fd).is_some() {
            assert(self.tview().fds =~= old(self).tview().fds.remove(fd));
            SyscallResult::Success(0)
        } else {
            assert(self.tview().fds =~= old(self).tview().fds);
            SyscallResult::Error(LinuxErrno::EBADF)
        }
    }

    fn sys_dup(&mut self, ctx: &SyscallContext) -> (r: SyscallResult)
        ensures
            (r, final(self).tview()) == dup_step(old(self).tview(), *ctx),
            final(self).mappings() == old(self).mappings(),
    {
        let oldfd = ctx.arg0 as i32;
        let copy = match self.fds.get(&oldfd) {
            Some(d) => FileDescriptor {
                backing: d.backing,
                path: d.path.clone(),
                flags: d.flags,
                is_pipe: d.is_pipe,
            },
            None => {
                return SyscallResult::Error(LinuxErrno::EBADF);
            },
        };
        let newfd = self.alloc_fd();
        self.put(newfd, copy);
        SyscallResult::Success(newfd as i64)
    }

    fn sys_pipe(&mut self) -> (r: SyscallResult)
        ensures
            (r, final(self).tview()) == pipe_step(old(self).tview()),
            final(self).mappings() == old(self).mappings(),
    {
        let read_fd = self.alloc_fd();
        let write_fd = self.alloc_fd();
        proof {
            reveal_strlit("pipe:read");
            reveal_strlit("pipe:write");
        }
        self.put(read_fd, FileDescriptor {
            backing: None,
            path: "pipe:read".to_owned(),
            flags: O_RDONLY,
            is_pipe: true,
        });
        self.put(write_fd, FileDescriptor {
            backing: None,
            path: "pipe:write".to_owned(),
            flags: O_WRONLY,
            is_pipe: true,
        });
        SyscallResult::Success(0)
    }

    fn sys_eventfd2(&mut self, ctx: &SyscallContext) -> (r: SyscallResult)
        requires
            old(self).wf(),
        ensures
            (r, final(self).tview()) == eventfd_step(old(self).tview(), *ctx),
            final(self).mappings() == old(self).mappings(),
    {
        let initval = ctx.arg0;
        let flags = ctx.arg1 as i32;
        let fd = self.alloc_fd();
        let c = self.next_counter;
        self.next_counter = self.next_counter.wrapping_add(1);
        self.counters.insert(c, initval);
        proof {
            reveal_strlit("eventfd");
        }
        self.put(fd, FileDescriptor {
            backing: Some(FileBacking::EventFd(c)),
            path: "eventfd".to_owned(),
            flags,
            is_pipe: false,
        });
        SyscallResult::Success(fd as i64)
    }

    fn sys_kill(&self, ctx: &SyscallContext, caller: u32) -> (t: Translation)
        ensures
            t == kill_step(*ctx, caller),
    {
        let pid = ctx.arg0 as i32;
        let sig = ctx.arg1 as i32;
        let redox_sig: usize = if sig == 0 {
            0
        } else {
            match Signal::from_number(sig) {
                Some(s) => match s.to_redox() {
                    Some(rs) => rs,
                    None => {
                        return Translation::Done(SyscallResult::Error(LinuxErrno::EINVAL));
                    },
                },
                None => {
                    return Translation::Done(SyscallResult::Error(LinuxErrno::EINVAL));
                },
            }
        };
        proof {
            if sig != 0 {
                let s = Signal::SIGSTKFLT;
                assert(spec_signal_number(s) == 16);
            }
        }
        if pid > 0 {
            Translation::Host(HostRequest::Kill { pid: pid as usize, signal: redox_sig })
        } else if pid == 0 {
            Translation::Host(HostRequest::Kill { pid: caller as usize, signal: redox_sig })
        } else {
            Translation::Done(SyscallResult::NotImplemented)
        }
    }
}


/// The mask `rt_sigprocmask` asks for: block adds, unblock removes, set
/// replaces; other `how` values are invalid.
pub open spec fn sigprocmask_target(how: i32, current: u64, set: u64) -> Option<u64> {
    if how == 0 {
        Some(current | set)
    } else if how == 1 {
        Some(current & !set)
    } else if how == 2 {
        Some(set)
    } else {
        None
    }
}

impl SyscallTranslator {
    /// `rt_sigaction` for `process`: see `sigaction_step`. `user_act` is
    /// the action record the call points to, read by the caller.
    pub fn sys_rt_sigaction(
        &self,
        ctx: &SyscallContext,
        process: &mut Process,
        user_act: Option<LinuxSigAction>,
    ) -> (r: (SyscallResult, Option<LinuxSigAction>))
        requires
            old(process).wf(),
            ctx.arg1 != 0 ==> user_act is Some,
        ensures
            final(process).wf(),
            ({
                let st = sigaction_step(*ctx, old(process).signals_spec().handlers_spec(), user_act);
                &&& r.0 == st.0
                &&& r.1 == st.1
                &&& final(process).signals_spec().handlers_spec() == st.2
            }),
            final(process).signals_spec().blocked_spec() == old(process).signals_spec().blocked_spec(),
            final(process).signals_spec().pending_spec() == old(process).signals_spec().pending_spec(),
            final(process).memory_spec() == old(process).memory_spec(),
            final(process).fds_spec() == old(process).fds_spec(),
            final(process).pid_spec() == old(process).pid_spec(),
    {
        let sig = ctx.arg0 as i32;
        let sigsetsize = ctx.arg3 as usize;
        if sigsetsize != 8 {
            return (SyscallResult::Error(LinuxErrno::EINVAL), None);
        }
        let signal = match Signal::from_number(sig) {
            Some(s) => s,
            None => {
                return (SyscallResult::Error(LinuxErrno::EINVAL), None);
            },
        };
        proof {
            assert(handler_index(signal) == sig - 1);
            lemma_signal_number_injective(signal, Signal::SIGKILL);
            lemma_signal_number_injective(signal, Signal::SIGSTOP);
        }
        let old_action = if ctx.arg2 != 0 {
            Some(to_linux_action(process.signal_handler(signal)))
        } else {
            None
        };
        if ctx.arg1 != 0 {
            if !signal.can_be_caught() {
                return (SyscallResult::Error(LinuxErrno::EINVAL), old_action);
            }
            let act = match user_act {
                Some(a) => to_action(a),
                None => {
                    return (SyscallResult::Success(0), old_action);
                },
            };
            process.set_signal_handler(signal, act);
        }
        (SyscallResult::Success(0), old_action)
    }

    /// `rt_sigprocmask` for `process`: the set size must be 8; the previous
    /// mask is handed back when asked for (`arg2` not null); with a new set
    /// (`set`, read by the caller) the mask becomes what `how` asks for, an
    /// invalid `how` being `EINVAL` after the previous mask was read.
    pub fn sys_rt_sigprocmask(
        &self,
        ctx: &SyscallContext,
        process: &mut Process,
        set: Option<u64>,
    ) -> (r: (SyscallResult, Option<u64>))
        requires
            old(process).wf(),
        ensures
            final(process).wf(),
            ctx.arg3 as usize != 8 ==> r == (SyscallResult::Error(LinuxErrno::EINVAL), None::<u64>)
                && final(process).signals_spec().blocked_spec() == old(process).signals_spec().blocked_spec(),
            ctx.arg3 as usize == 8 ==> {
                let old_mask = old(process).signals_spec().blocked_spec();
                let old_out = if ctx.arg2 != 0 { Some(old_mask) } else { None };
                &&& r.1 == old_out
                &&& match set {
                    None => r.0 == SyscallResult::Success(0) && final(process).signals_spec().blocked_spec() == old_mask,
                    Some(s) => match sigprocmask_target(ctx.arg0 as i32, old_mask, s) {
                        None => r.0 == SyscallResult::Error(LinuxErrno::EINVAL)
                            && final(process).signals_spec().blocked_spec() == old_mask,
                        Some(m) => r.0 == SyscallResult::Success(0)
                            && final(process).signals_spec().blocked_spec() == super::signal::effective_mask(m),
                    },
                }
            },
            final(process).signals_spec().handlers_spec() == old(process).signals_spec().handlers_spec(),
            final(process).signals_spec().pending_spec() == old(process).signals_spec().pending_spec(),
            final(process).memory_spec() == old(process).memory_spec(),
            final(process).fds_spec() == old(process).fds_spec(),
    {
        let how = ctx.arg0 as i32;
        let sigsetsize = ctx.arg3 as usize;
        if sigsetsize != 8 {
            return (SyscallResult::Error(LinuxErrno::EINVAL), None);
        }
        let current = process.blocked_signals();
        let old_out = if ctx.arg2 != 0 { Some(current) } else { None };
        match set {
            Some(s) => {
                let new_set = if how == 0 {
                    current | s
                } else if how == 1 {
                    current & !s
                } else if how == 2 {
                    s
                } else {
                    return (SyscallResult::Error(LinuxErrno::EINVAL), old_out);
                };
                process.set_blocked_signals(new_set);
            },
            None => {},
        }
        (SyscallResult::Success(0), old_out)
    }

    /// `rt_sigreturn` for `process` with the user context `uc` the caller
    /// read from the signal frame: the signal mask comes back and, when the
    /// process has a thread, the main thread's registers are restored from
    /// the machine context (other registers keep their values).
    pub fn sys_rt_sigreturn(&self, process: &mut Process, uc: &super::signal::UContext) -> (r: SyscallResult)
        requires
            old(process).wf(),
        ensures
            r == SyscallResult::Success(0),
            final(process).wf(),
            final(process).signals_spec().blocked_spec() == super::signal::effective_mask(uc.uc_sigmask),
            final(process).signals_spec().handlers_spec() == old(process).signals_spec().handlers_spec(),
            old(process).threads_spec().len() == 0 ==> final(process).threads_spec() == old(process).threads_spec(),
            old(process).threads_spec().len() > 0 ==> {
                let mc = uc.uc_mcontext;
                let regs = old(process).threads_spec()[0].registers_spec();
                final(process).threads_spec() == old(process).threads_spec().update(
                    0,
                    old(process).threads_spec()[0].with_registers(restored_registers(regs, mc)),
                )
            },
            final(process).memory_spec() == old(process).memory_spec(),
            final(process).fds_spec() == old(process).fds_spec(),
    {
        process.set_blocked_signals(uc.uc_sigmask);
        match process.main_thread_registers() {
            Some(regs) => {
                let restored = restore_registers(regs, &uc.uc_mcontext);
                process.set_main_thread_registers(restored);
            },
            None => {},
        }
        SyscallResult::Success(0)
    }

    /// Finishes `memfd_create` once the caller tried to create the shared
    /// memory file: the file, when created (with host handle `file`), gets a
    /// new descriptor; otherwise the call fails with `EFAULT`.
    pub fn finish_memfd_create(&mut self, path: String, file: Option<u64>) -> (r: SyscallResult)
        requires
            old(self).wf(),
        ensures
            final(self).wf(),
            final(self).mappings() == old(self).mappings(),
            file is None ==> r == SyscallResult::Error(LinuxErrno::EFAULT) && final(self).tview() == old(self).tview(),
            file matches Some(h) ==> {
                let fd = old(self).tview().next_fd;
                &&& r == SyscallResult::Success(fd as i64)
                &&& final(self).tview() == put_fd(
                    bump_fd(old(self).tview()),
                    fd,
                    fd_view(Some(FileBacking::Native(h)), path@, 0, false),
                )
            },
    {
        match file {
            Some(h) => {
                let fd = self.alloc_fd();
                self.put(fd, FileDescriptor { backing: Some(FileBacking::Native(h)), path, flags: 0, is_pipe: false });
                SyscallResult::Success(fd as i64)
            },
            None => SyscallResult::Error(LinuxErrno::EFAULT),
        }
    }

    /// Translates one system call of `process`. `user_act` is the action
    /// record an `rt_sigaction` call points to, read by the caller. Calls
    /// that need the host come back as a request.
    pub fn translate(
        &mut self,
        ctx: &SyscallContext,
        process: &mut Process,
        user_act: Option<LinuxSigAction>,
    ) -> (t: Translation)
        requires
            old(self).wf(),
            old(process).wf(),
            spec_syscall_of(ctx.syscall_num) == LinuxSyscall::RtSigaction && ctx.arg1 != 0 ==> user_act is Some,
        ensures
            final(self).wf(),
            final(process).wf(),
            final(self).mappings() == old(self).mappings(),
            spec_syscall_of(ctx.syscall_num) != LinuxSyscall::RtSigaction ==> (t, final(self).tview())
                == translate_step(old(self).tview(), *ctx, old(process).pid_spec())
                && *final(process) == *old(process),
            spec_syscall_of(ctx.syscall_num) == LinuxSyscall::RtSigaction ==> ({
                let st = sigaction_step(*ctx, old(process).signals_spec().handlers_spec(), user_act);
                &&& t == Translation::Sigaction { result: st.0, old_action: st.1 }
                &&& final(process).signals_spec().handlers_spec() == st.2
                &&& final(process).signals_spec().blocked_spec() == old(process).signals_spec().blocked_spec()
                &&& final(self).tview() == old(self).tview()
            }),
    {
        let call = ctx.syscall();
        match call {
            LinuxSyscall::RtSigaction => {
                let (result, old_action) = self.sys_rt_sigaction(ctx, process, user_act);
                return Translation::Sigaction { result, old_action };
            },
            _ => {},
        }
        let caller = process.pid();
        match call {
            LinuxSyscall::Read => Translation::Done(self.sys_read(ctx)),
            LinuxSyscall::Write => Translation::Done(self.sys_write(ctx)),
            LinuxSyscall::Open => Translation::Done(self.sys_open(ctx.arg1 as i32)),
            LinuxSyscall::Openat => Translation::Done(self.sys_open(ctx.arg2 as i32)),
            LinuxSyscall::Close => Translation::Done(self.sys_close(ctx)),
            LinuxSyscall::Lseek => Translation::Done(SyscallResult::Success(ctx.arg1 as i64)),
            LinuxSyscall::Dup => Translation::Done(self.sys_dup(ctx)),
            LinuxSyscall::Dup2 => Translation::Done(SyscallResult::Success((ctx.arg1 as i32) as i64)),
            LinuxSyscall::Dup3 => {
                if ctx.arg0 as i32 == ctx.arg1 as i32 {
                    Translation::Done(SyscallResult::Error(LinuxErrno::EINVAL))
                } else {
                    Translation::Done(SyscallResult::Success((ctx.arg1 as i32) as i64))
                }
            },
            LinuxSyscall::Pipe | LinuxSyscall::Pipe2 => Translation::Done(self.sys_pipe()),
            LinuxSyscall::Getcwd | LinuxSyscall::Brk | LinuxSyscall::Mmap => Translation::Done(
                SyscallResult::Success(ctx.arg0 as i64),
            ),
            LinuxSyscall::Getrandom => Translation::Done(SyscallResult::Success((ctx.arg1 as usize) as i64)),
            LinuxSyscall::Getpid | LinuxSyscall::Gettid | LinuxSyscall::Getuid | LinuxSyscall::Geteuid
            | LinuxSyscall::Getgid | LinuxSyscall::Getegid | LinuxSyscall::SetTidAddress => {
                Translation::Done(SyscallResult::Success(1000))
            },
            LinuxSyscall::Getppid => Translation::Done(SyscallResult::Success(1)),
            LinuxSyscall::Access | LinuxSyscall::Faccessat | LinuxSyscall::Chdir | LinuxSyscall::Mkdir
            | LinuxSyscall::Rmdir | LinuxSyscall::Unlink | LinuxSyscall::Unlinkat | LinuxSyscall::Stat
            | LinuxSyscall::Fstat | LinuxSyscall::Lstat | LinuxSyscall::Newfstatat
            | LinuxSyscall::Getdents64 | LinuxSyscall::Exit | LinuxSyscall::ExitGroup
            | LinuxSyscall::Fork | LinuxSyscall::Vfork | LinuxSyscall::Clone | LinuxSyscall::Execve
            | LinuxSyscall::Wait4 | LinuxSyscall::Tkill | LinuxSyscall::Tgkill
            | LinuxSyscall::RtSigprocmask | LinuxSyscall::Munmap | LinuxSyscall::Mprotect
            | LinuxSyscall::ClockGettime | LinuxSyscall::Gettimeofday | LinuxSyscall::Nanosleep
            | LinuxSyscall::Uname | LinuxSyscall::Prlimit64 | LinuxSyscall::ArchPrctl => {
                Translation::Done(SyscallResult::Success(0))
            },
            LinuxSyscall::Kill => self.sys_kill(ctx, caller),
            LinuxSyscall::MemfdCreate => {
                let name_fd = self.alloc_fd();
                Translation::Host(HostRequest::MemfdCreate { name_fd })
            },
            LinuxSyscall::Futex => Translation::Host(HostRequest::Futex {
                uaddr: ctx.arg0 as usize,
                op: ctx.arg1 as usize,
                val: ctx.arg2 as usize,
                timeout: ctx.arg3 as usize,
                uaddr2: ctx.arg4 as usize,
            }),
            LinuxSyscall::FutexWaitv => Translation::Host(HostRequest::FutexWaitv {
                waiters: ctx.arg0 as usize,
                count: ctx.arg1 as usize,
                flags: ctx.arg2 as usize,
                timeout: ctx.arg3 as usize,
                clockid: ctx.arg4 as usize,
            }),
            LinuxSyscall::Eventfd | LinuxSyscall::Eventfd2 => Translation::Done(self.sys_eventfd2(ctx)),
            _ => Translation::Done(SyscallResult::NotImplemented),
        }
    }
}

/// The registers after `rt_sigreturn`: the general registers, flags and
/// segment selectors from the machine context, the rest as they were.
pub open spec fn restored_registers(
    regs: super::process::RegisterState,
    mc: super::signal::MContext,
) -> super::process::RegisterState {
    super::process::RegisterState {
        r8: mc.r8,
        r9: mc.r9,
        r10: mc.r10,
        r11: mc.r11,
        r12: mc.r12,
        r13: mc.r13,
        r14: mc.r14,
        r15: mc.r15,
        rdi: mc.rdi,
        rsi: mc.rsi,
        rbp: mc.rbp,
        rbx: mc.rbx,
        rdx: mc.rdx,
        rax: mc.rax,
        rcx: mc.rcx,
        rsp: mc.rsp,
        rip: mc.rip,
        rflags: mc.eflags,
        cs: mc.cs as u64,
        gs: mc.gs as u64,
        fs: mc.fs as u64,
        ..regs
    }
}

fn restore_registers(
    regs: super::process::RegisterState,
    mc: &super::signal::MContext,
) -> (r: super::process::RegisterState)
    ensures
        r == restored_registers(regs, *mc),
{
    let mut out = regs;
    out.r8 = mc.r8;
    out.r9 = mc.r9;
    out.r10 = mc.r10;
    out.r11 = mc.r11;
    out.r12 = mc.r12;
    out.r13 = mc.r13;
    out.r14 = mc.r14;
    out.r15 = mc.r15;
    out.rdi = mc.rdi;
    out.rsi = mc.rsi;
    out.rbp = mc.rbp;
    out.rbx = mc.rbx;
    out.rdx = mc.rdx;
    out.rax = mc.rax;
    out.rcx = mc.rcx;
    out.rsp = mc.rsp;
    out.rip = mc.rip;
    out.rflags = mc.eflags;
    out.cs = mc.cs as u64;
    out.gs = mc.gs as u64;
    out.fs = mc.fs as u64;
    out
}

/// An event descriptor starts with its counter at the initial value it was
/// created with: `eventfd` or `eventfd2` answers the next descriptor number,
/// and an 8-byte read on that descriptor right after succeeds (taking the
/// count) exactly when the initial value is not zero, and would block
/// otherwise.
pub proof fn lemma_eventfd_starts_at_initial_value(
    v: TView,
    ctx: SyscallContext,
    read_ctx: SyscallContext,
    caller: u32,
)
    requires
        spec_syscall_of(ctx.syscall_num) == LinuxSyscall::Eventfd || spec_syscall_of(ctx.syscall_num)
            == LinuxSyscall::Eventfd2,
        spec_syscall_of(read_ctx.syscall_num) == LinuxSyscall::Read,
        read_ctx.arg0 as i32 == v.next_fd,
        read_ctx.arg2 as usize >= 8,
    ensures
        ({
            let (t, after) = translate_step(v, ctx, caller);
            let (t2, after2) = translate_step(after, read_ctx, caller);
            &&& t == Translation::Done(SyscallResult::Success(v.next_fd as i64))
            &&& ctx.arg0 != 0 ==> t2 == Translation::Done(SyscallResult::Success(8))
            &&& ctx.arg0 == 0 ==> t2 == Translation::Done(SyscallResult::Error(LinuxErrno::EAGAIN))
        }),
{
    let (t, after) = translate_step(v, ctx, caller);
    let fd = v.next_fd;
    assert(after.fds.contains_key(fd));
    assert(after.fds[fd].backing == Some(FileBacking::EventFd(v.next_counter)));
    assert(after.counters[v.next_counter] == ctx.arg0);
}

} // verus!
