//! Signal handling for Linux compatibility: signal numbers and default
//! actions, per-process handler tables, masks and pending queues.
pub mod sa_flags;
pub mod si_code;
pub mod ss_flags;

use vstd::prelude::*;
use std::collections::VecDeque;

verus! {

/// Linux signals.
#[derive(Debug, Clone, Copy, PartialEq, Eq, Hash, Structural)]
#[allow(non_camel_case_types)]
pub enum Signal {
    /// Signal number 1.
    SIGHUP,
    /// Signal number 2.
    SIGINT,
    /// Signal number 3.
    SIGQUIT,
    /// Signal number 4.
    SIGILL,
    /// Signal number 5.
    SIGTRAP,
    /// Signal number 6.
    SIGABRT,
    /// Signal number 7.
    SIGBUS,
    /// Signal number 8.
    SIGFPE,
    /// Signal number 9.
    SIGKILL,
    /// Signal number 10.
    SIGUSR1,
    /// Signal number 11.
    SIGSEGV,
    /// Signal number 12.
    SIGUSR2,
    /// Signal number 13.
    SIGPIPE,
    /// Signal number 14.
    SIGALRM,
    /// Signal number 15.
    SIGTERM,
    /// Signal number 16.
    SIGSTKFLT,
    /// Signal number 17.
    SIGCHLD,
    /// Signal number 18.
    SIGCONT,
    /// Signal number 19.
    SIGSTOP,
    /// Signal number 20.
    SIGTSTP,
    /// Signal number 21.
    SIGTTIN,
    /// Signal number 22.
    SIGTTOU,
    /// Signal number 23.
    SIGURG,
    /// Signal number 24.
    SIGXCPU,
    /// Signal number 25.
    SIGXFSZ,
    /// Signal number 26.
    SIGVTALRM,
    /// Signal number 27.
    SIGPROF,
    /// Signal number 28.
    SIGWINCH,
    /// Signal number 29.
    SIGIO,
    /// Signal number 30.
    SIGPWR,
    /// Signal number 31.
    SIGSYS,
    /// Signal number 34.
    SIGRTMIN,
    /// Signal number 35.
    SIGRT_1,
    /// Signal number 36.
    SIGRT_2,
    /// Signal number 37.
    SIGRT_3,
    /// Signal number 38.
    SIGRT_4,
    /// Signal number 39.
    SIGRT_5,
    /// Signal number 40.
    SIGRT_6,
    /// Signal number 41.
    SIGRT_7,
    /// Signal number 42.
    SIGRT_8,
    /// Signal number 43.
    SIGRT_9,
    /// Signal number 44.
    SIGRT_10,
    /// Signal number 45.
    SIGRT_11,
    /// Signal number 46.
    SIGRT_12,
    /// Signal number 47.
    SIGRT_13,
    /// Signal number 48.
    SIGRT_14,
    /// Signal number 49.
    SIGRT_15,
    /// Signal number 50.
    SIGRT_16,
    /// Signal number 51.
    SIGRT_17,
    /// Signal number 52.
    SIGRT_18,
    /// Signal number 53.
    SIGRT_19,
    /// Signal number 54.
    SIGRT_20,
    /// Signal number 55.
    SIGRT_21,
    /// Signal number 56.
    SIGRT_22,
    /// Signal number 57.
    SIGRT_23,
    /// Signal number 58.
    SIGRT_24,
    /// Signal number 59.
    SIGRT_25,
    /// Signal number 60.
    SIGRT_26,
    /// Signal number 61.
    SIGRT_27,
    /// Signal number 62.
    SIGRT_28,
    /// Signal number 63.
    SIGRT_29,
    /// Signal number 64.
    SIGRTMAX,
}

/// The Linux number of a signal.
pub open spec fn spec_signal_number(s: Signal) -> i32 {
    match s {
        Signal::SIGHUP => 1,
        Signal::SIGINT => 2,
        Signal::SIGQUIT => 3,
        Signal::SIGILL => 4,
        Signal::SIGTRAP => 5,
        Signal::SIGABRT => 6,
        Signal::SIGBUS => 7,
        Signal::SIGFPE => 8,
        Signal::SIGKILL => 9,
        Signal::SIGUSR1 => 10,
        Signal::SIGSEGV => 11,
        Signal::SIGUSR2 => 12,
        Signal::SIGPIPE => 13,
        Signal::SIGALRM => 14,
        Signal::SIGTERM => 15,
        Signal::SIGSTKFLT => 16,
        Signal::SIGCHLD => 17,
        Signal::SIGCONT => 18,
        Signal::SIGSTOP => 19,
        Signal::SIGTSTP => 20,
        Signal::SIGTTIN => 21,
        Signal::SIGTTOU => 22,
        Signal::SIGURG => 23,
        Signal::SIGXCPU => 24,
        Signal::SIGXFSZ => 25,
        Signal::SIGVTALRM => 26,
        Signal::SIGPROF => 27,
        Signal::SIGWINCH => 28,
        Signal::SIGIO => 29,
        Signal::SIGPWR => 30,
        Signal::SIGSYS => 31,
        Signal::SIGRTMIN => 34,
        Signal::SIGRT_1 => 35,
        Signal::SIGRT_2 => 36,
        Signal::SIGRT_3 => 37,
        Signal::SIGRT_4 => 38,
        Signal::SIGRT_5 => 39,
        Signal::SIGRT_6 => 40,
        Signal::SIGRT_7 => 41,
        Signal::SIGRT_8 => 42,
        Signal::SIGRT_9 => 43,
        Signal::SIGRT_10 => 44,
        Signal::SIGRT_11 => 45,
        Signal::SIGRT_12 => 46,
        Signal::SIGRT_13 => 47,
        Signal::SIGRT_14 => 48,
        Signal::SIGRT_15 => 49,
        Signal::SIGRT_16 => 50,
        Signal::SIGRT_17 => 51,
        Signal::SIGRT_18 => 52,
        Signal::SIGRT_19 => 53,
        Signal::SIGRT_20 => 54,
        Signal::SIGRT_21 => 55,
        Signal::SIGRT_22 => 56,
        Signal::SIGRT_23 => 57,
        Signal::SIGRT_24 => 58,
        Signal::SIGRT_25 => 59,
        Signal::SIGRT_26 => 60,
        Signal::SIGRT_27 => 61,
        Signal::SIGRT_28 => 62,
        Signal::SIGRT_29 => 63,
        Signal::SIGRTMAX => 64,
    }
}

/// The name of a signal; every real-time signal is named `SIGRT`.
pub open spec fn spec_signal_name(s: Signal) -> &'static str {
    match s {
        Signal::SIGHUP => "SIGHUP",
        Signal::SIGINT => "SIGINT",
        Signal::SIGQUIT => "SIGQUIT",
        Signal::SIGILL => "SIGILL",
        Signal::SIGTRAP => "SIGTRAP",
        Signal::SIGABRT => "SIGABRT",
        Signal::SIGBUS => "SIGBUS",
        Signal::SIGFPE => "SIGFPE",
        Signal::SIGKILL => "SIGKILL",
        Signal::SIGUSR1 => "SIGUSR1",
        Signal::SIGSEGV => "SIGSEGV",
        Signal::SIGUSR2 => "SIGUSR2",
        Signal::SIGPIPE => "SIGPIPE",
        Signal::SIGALRM => "SIGALRM",
        Signal::SIGTERM => "SIGTERM",
        Signal::SIGSTKFLT => "SIGSTKFLT",
        Signal::SIGCHLD => "SIGCHLD",
        Signal::SIGCONT => "SIGCONT",
        Signal::SIGSTOP => "SIGSTOP",
        Signal::SIGTSTP => "SIGTSTP",
        Signal::SIGTTIN => "SIGTTIN",
        Signal::SIGTTOU => "SIGTTOU",
        Signal::SIGURG => "SIGURG",
        Signal::SIGXCPU => "SIGXCPU",
        Signal::SIGXFSZ => "SIGXFSZ",
        Signal::SIGVTALRM => "SIGVTALRM",
        Signal::SIGPROF => "SIGPROF",
        Signal::SIGWINCH => "SIGWINCH",
        Signal::SIGIO => "SIGIO",
        Signal::SIGPWR => "SIGPWR",
        Signal::SIGSYS => "SIGSYS",
        _ => "SIGRT",
    }
}

/// The default action of a signal.
pub open spec fn spec_default_action(s: Signal) -> SignalAction {
    match s {
        Signal::SIGQUIT | Signal::SIGILL | Signal::SIGTRAP | Signal::SIGABRT | Signal::SIGBUS | Signal::SIGFPE | Signal::SIGSEGV | Signal::SIGXCPU | Signal::SIGXFSZ | Signal::SIGSYS => SignalAction::CoreDump,
        Signal::SIGSTOP | Signal::SIGTSTP | Signal::SIGTTIN | Signal::SIGTTOU => SignalAction::Stop,
        Signal::SIGCONT => SignalAction::Continue,
        Signal::SIGCHLD | Signal::SIGURG | Signal::SIGWINCH => SignalAction::Ignore,
        _ => SignalAction::Terminate,
    }
}

/// `num` is the number of a Linux signal (1 to 31 and 34 to 64).
pub open spec fn is_signal_number(num: i32) -> bool {
    (1 <= num <= 31) || (34 <= num <= 64)
}

/// Only SIGKILL and SIGSTOP cannot be caught, ignored or blocked.
pub open spec fn spec_can_be_caught(s: Signal) -> bool {
    s != Signal::SIGKILL && s != Signal::SIGSTOP
}

/// The bit of a signal in a signal mask.
pub open spec fn signal_bit(s: Signal) -> u64 {
    1u64 << ((spec_signal_number(s) - 1) as u64)
}

/// The mask bits of SIGKILL and SIGSTOP, which can never be blocked.
pub const UNBLOCKABLE_MASK: u64 = 0x4_0100;

/// The Redox number of a signal, if Redox has it.
pub open spec fn spec_redox_signal(s: Signal) -> Option<usize> {
    let n = spec_signal_number(s);
    if s == Signal::SIGSTKFLT || n > 31 {
        None
    } else {
        Some(n as usize)
    }
}

impl Signal {
    /// Convert from a signal number.
    pub fn from_number(num: i32) -> (r: Option<Signal>)
        ensures
            r is Some <==> is_signal_number(num),
            r matches Some(s) ==> spec_signal_number(s) == num,
    {
        match num {
            1 => Some(Signal::SIGHUP),
            2 => Some(Signal::SIGINT),
            3 => Some(Signal::SIGQUIT),
            4 => Some(Signal::SIGILL),
            5 => Some(Signal::SIGTRAP),
            6 => Some(Signal::SIGABRT),
            7 => Some(Signal::SIGBUS),
            8 => Some(Signal::SIGFPE),
            9 => Some(Signal::SIGKILL),
            10 => Some(Signal::SIGUSR1),
            11 => Some(Signal::SIGSEGV),
            12 => Some(Signal::SIGUSR2),
            13 => Some(Signal::SIGPIPE),
            14 => Some(Signal::SIGALRM),
            15 => Some(Signal::SIGTERM),
            16 => Some(Signal::SIGSTKFLT),
            17 => Some(Signal::SIGCHLD),
            18 => Some(Signal::SIGCONT),
            19 => Some(Signal::SIGSTOP),
            20 => Some(Signal::SIGTSTP),
            21 => Some(Signal::SIGTTIN),
            22 => Some(Signal::SIGTTOU),
            23 => Some(Signal::SIGURG),
            24 => Some(Signal::SIGXCPU),
            25 => Some(Signal::SIGXFSZ),
            26 => Some(Signal::SIGVTALRM),
            27 => Some(Signal::SIGPROF),
            28 => Some(Signal::SIGWINCH),
            29 => Some(Signal::SIGIO),
            30 => Some(Signal::SIGPWR),
            31 => Some(Signal::SIGSYS),
            34 => Some(Signal::SIGRTMIN),
            35 => Some(Signal::SIGRT_1),
            36 => Some(Signal::SIGRT_2),
            37 => Some(Signal::SIGRT_3),
            38 => Some(Signal::SIGRT_4),
            39 => Some(Signal::SIGRT_5),
            40 => Some(Signal::SIGRT_6),
            41 => Some(Signal::SIGRT_7),
            42 => Some(Signal::SIGRT_8),
            43 => Some(Signal::SIGRT_9),
            44 => Some(Signal::SIGRT_10),
            45 => Some(Signal::SIGRT_11),
            46 => Some(Signal::SIGRT_12),
            47 => Some(Signal::SIGRT_13),
            48 => Some(Signal::SIGRT_14),
            49 => Some(Signal::SIGRT_15),
            50 => Some(Signal::SIGRT_16),
            51 => Some(Signal::SIGRT_17),
            52 => Some(Signal::SIGRT_18),
            53 => Some(Signal::SIGRT_19),
            54 => Some(Signal::SIGRT_20),
            55 => Some(Signal::SIGRT_21),
            56 => Some(Signal::SIGRT_22),
            57 => Some(Signal::SIGRT_23),
            58 => Some(Signal::SIGRT_24),
            59 => Some(Signal::SIGRT_25),
            60 => Some(Signal::SIGRT_26),
            61 => Some(Signal::SIGRT_27),
            62 => Some(Signal::SIGRT_28),
            63 => Some(Signal::SIGRT_29),
            64 => Some(Signal::SIGRTMAX),
            _ => None,
        }
    }

    /// The Linux number of this signal.
    pub fn number(&self) -> (n: i32)
        ensures
            n == spec_signal_number(*self),
    {
        match self {
            Signal::SIGHUP => 1,
            Signal::SIGINT => 2,
            Signal::SIGQUIT => 3,
            Signal::SIGILL => 4,
            Signal::SIGTRAP => 5,
            Signal::SIGABRT => 6,
            Signal::SIGBUS => 7,
            Signal::SIGFPE => 8,
            Signal::SIGKILL => 9,
            Signal::SIGUSR1 => 10,
            Signal::SIGSEGV => 11,
            Signal::SIGUSR2 => 12,
            Signal::SIGPIPE => 13,
            Signal::SIGALRM => 14,
            Signal::SIGTERM => 15,
            Signal::SIGSTKFLT => 16,
            Signal::SIGCHLD => 17,
            Signal::SIGCONT => 18,
            Signal::SIGSTOP => 19,
            Signal::SIGTSTP => 20,
            Signal::SIGTTIN => 21,
            Signal::SIGTTOU => 22,
            Signal::SIGURG => 23,
            Signal::SIGXCPU => 24,
            Signal::SIGXFSZ => 25,
            Signal::SIGVTALRM => 26,
            Signal::SIGPROF => 27,
            Signal::SIGWINCH => 28,
            Signal::SIGIO => 29,
            Signal::SIGPWR => 30,
            Signal::SIGSYS => 31,
            Signal::SIGRTMIN => 34,
            Signal::SIGRT_1 => 35,
            Signal::SIGRT_2 => 36,
            Signal::SIGRT_3 => 37,
            Signal::SIGRT_4 => 38,
            Signal::SIGRT_5 => 39,
            Signal::SIGRT_6 => 40,
            Signal::SIGRT_7 => 41,
            Signal::SIGRT_8 => 42,
            Signal::SIGRT_9 => 43,
            Signal::SIGRT_10 => 44,
            Signal::SIGRT_11 => 45,
            Signal::SIGRT_12 => 46,
            Signal::SIGRT_13 => 47,
            Signal::SIGRT_14 => 48,
            Signal::SIGRT_15 => 49,
            Signal::SIGRT_16 => 50,
            Signal::SIGRT_17 => 51,
            Signal::SIGRT_18 => 52,
            Signal::SIGRT_19 => 53,
            Signal::SIGRT_20 => 54,
            Signal::SIGRT_21 => 55,
            Signal::SIGRT_22 => 56,
            Signal::SIGRT_23 => 57,
            Signal::SIGRT_24 => 58,
            Signal::SIGRT_25 => 59,
            Signal::SIGRT_26 => 60,
            Signal::SIGRT_27 => 61,
            Signal::SIGRT_28 => 62,
            Signal::SIGRT_29 => 63,
            Signal::SIGRTMAX => 64,
        }
    }

    /// Get the signal name.
    pub fn name(&self) -> (r: &'static str)
        ensures
            r@ == spec_signal_name(*self)@,
    {
        match self {
            Signal::SIGHUP => "SIGHUP",
            Signal::SIGINT => "SIGINT",
            Signal::SIGQUIT => "SIGQUIT",
            Signal::SIGILL => "SIGILL",
            Signal::SIGTRAP => "SIGTRAP",
            Signal::SIGABRT => "SIGABRT",
            Signal::SIGBUS => "SIGBUS",
            Signal::SIGFPE => "SIGFPE",
            Signal::SIGKILL => "SIGKILL",
            Signal::SIGUSR1 => "SIGUSR1",
            Signal::SIGSEGV => "SIGSEGV",
            Signal::SIGUSR2 => "SIGUSR2",
            Signal::SIGPIPE => "SIGPIPE",
            Signal::SIGALRM => "SIGALRM",
            Signal::SIGTERM => "SIGTERM",
            Signal::SIGSTKFLT => "SIGSTKFLT",
            Signal::SIGCHLD => "SIGCHLD",
            Signal::SIGCONT => "SIGCONT",
            Signal::SIGSTOP => "SIGSTOP",
            Signal::SIGTSTP => "SIGTSTP",
            Signal::SIGTTIN => "SIGTTIN",
            Signal::SIGTTOU => "SIGTTOU",
            Signal::SIGURG => "SIGURG",
            Signal::SIGXCPU => "SIGXCPU",
            Signal::SIGXFSZ => "SIGXFSZ",
            Signal::SIGVTALRM => "SIGVTALRM",
            Signal::SIGPROF => "SIGPROF",
            Signal::SIGWINCH => "SIGWINCH",
            Signal::SIGIO => "SIGIO",
            Signal::SIGPWR => "SIGPWR",
            Signal::SIGSYS => "SIGSYS",
            Signal::SIGRTMIN
            | Signal::SIGRT_1
            | Signal::SIGRT_2
            | Signal::SIGRT_3
            | Signal::SIGRT_4
            | Signal::SIGRT_5
            | Signal::SIGRT_6
            | Signal::SIGRT_7
            | Signal::SIGRT_8
            | Signal::SIGRT_9
            | Signal::SIGRT_10
            | Signal::SIGRT_11
            | Signal::SIGRT_12
            | Signal::SIGRT_13
            | Signal::SIGRT_14
            | Signal::SIGRT_15
            | Signal::SIGRT_16
            | Signal::SIGRT_17
            | Signal::SIGRT_18
            | Signal::SIGRT_19
            | Signal::SIGRT_20
            | Signal::SIGRT_21
            | Signal::SIGRT_22
            | Signal::SIGRT_23
            | Signal::SIGRT_24
            | Signal::SIGRT_25
            | Signal::SIGRT_26
            | Signal::SIGRT_27
            | Signal::SIGRT_28
            | Signal::SIGRT_29
            | Signal::SIGRTMAX => "SIGRT",
        }
    }

    /// The Redox signal number of this signal: the same number for the
    /// standard signals 1 to 31 except SIGSTKFLT; none for SIGSTKFLT and the
    /// real-time signals.
    pub fn to_redox(&self) -> (r: Option<usize>)
        ensures
            r == spec_redox_signal(*self),
    {
        match self {
            Signal::SIGSTKFLT => None,
            _ => {
                let n = self.number();
                if n <= 31 {
                    Some(n as usize)
                } else {
                    None
                }
            },
        }
    }

    /// Whether the signal can be caught or ignored (all but SIGKILL and
    /// SIGSTOP).
    pub fn can_be_caught(&self) -> (b: bool)
        ensures
            b == spec_can_be_caught(*self),
    {
        !matches!(self, Signal::SIGKILL | Signal::SIGSTOP)
    }

    /// Get the default action for the signal.
    pub fn default_action(&self) -> (a: SignalAction)
        ensures
            a == spec_default_action(*self),
    {
        match self {
            Signal::SIGHUP
            | Signal::SIGINT
            | Signal::SIGKILL
            | Signal::SIGPIPE
            | Signal::SIGALRM
            | Signal::SIGTERM
            | Signal::SIGUSR1
            | Signal::SIGUSR2
            | Signal::SIGPWR
            | Signal::SIGSTKFLT
            | Signal::SIGIO
            | Signal::SIGPROF
            | Signal::SIGVTALRM => SignalAction::Terminate,
            Signal::SIGQUIT
            | Signal::SIGILL
            | Signal::SIGTRAP
            | Signal::SIGABRT
            | Signal::SIGBUS
            | Signal::SIGFPE
            | Signal::SIGSEGV
            | Signal::SIGXCPU
            | Signal::SIGXFSZ
            | Signal::SIGSYS => SignalAction::CoreDump,
            Signal::SIGSTOP
            | Signal::SIGTSTP
            | Signal::SIGTTIN
            | Signal::SIGTTOU => SignalAction::Stop,
            Signal::SIGCONT => SignalAction::Continue,
            Signal::SIGCHLD
            | Signal::SIGURG
            | Signal::SIGWINCH => SignalAction::Ignore,
            Signal::SIGRTMIN
            | Signal::SIGRT_1
            | Signal::SIGRT_2
            | Signal::SIGRT_3
            | Signal::SIGRT_4
            | Signal::SIGRT_5
            | Signal::SIGRT_6
            | Signal::SIGRT_7
            | Signal::SIGRT_8
            | Signal::SIGRT_9
            | Signal::SIGRT_10
            | Signal::SIGRT_11
            | Signal::SIGRT_12
            | Signal::SIGRT_13
            | Signal::SIGRT_14
            | Signal::SIGRT_15
            | Signal::SIGRT_16
            | Signal::SIGRT_17
            | Signal::SIGRT_18
            | Signal::SIGRT_19
            | Signal::SIGRT_20
            | Signal::SIGRT_21
            | Signal::SIGRT_22
            | Signal::SIGRT_23
            | Signal::SIGRT_24
            | Signal::SIGRT_25
            | Signal::SIGRT_26
            | Signal::SIGRT_27
            | Signal::SIGRT_28
            | Signal::SIGRT_29
            | Signal::SIGRTMAX => SignalAction::Terminate,
        }
    }
}

/// Every signal has a valid signal number, so its handler slot lies in the
/// table of 64 handlers.
pub proof fn lemma_signal_number_valid(s: Signal)
    ensures
        is_signal_number(spec_signal_number(s)),
        0 <= handler_index(s) < 64,
{
}

/// Distinct signals have distinct numbers; with the contract of
/// `Signal::from_number` this makes `from_number(s.number())` give back `s`.
pub proof fn lemma_signal_number_injective(a: Signal, b: Signal)
    ensures
        spec_signal_number(a) == spec_signal_number(b) ==> a == b,
{
}

/// The unblockable mask is exactly the mask bits of SIGKILL and SIGSTOP.
pub proof fn lemma_unblockable_mask()
    ensures
        UNBLOCKABLE_MASK == signal_bit(Signal::SIGKILL) | signal_bit(Signal::SIGSTOP),
{
    assert((1u64 << 8u64) | (1u64 << 18u64) == 0x4_0100u64) by (bit_vector);
}

/// SIGKILL and SIGSTOP are delivered whatever the blocked mask.
pub proof fn lemma_uncatchable_always_deliverable(p: PendingSignal, blocked: u64)
    requires
        !spec_can_be_caught(p.signal),
    ensures
        deliverable(p, blocked),
{
}

/// Signal action type.
#[derive(Debug, Clone, Copy, PartialEq, Eq, Structural)]
pub enum SignalAction {
    /// Terminate the process.
    Terminate,
    /// Terminate with core dump.
    CoreDump,
    /// Stop the process.
    Stop,
    /// Continue the process.
    Continue,
    /// Ignore the signal.
    Ignore,
}

/// Signal handler.
#[derive(Debug, Clone, Copy, PartialEq, Eq, Structural)]
pub enum SignalHandler {
    /// Default action.
    Default,
    /// Ignore signal.
    Ignore,
    /// Custom handler at address.
    Handler(u64),
}

impl Default for SignalHandler {
    fn default() -> (h: Self)
        ensures
            h == SignalHandler::Default,
    {
        SignalHandler::Default
    }
}

/// Signal action configuration (sigaction).
#[derive(Debug, Clone, Copy, PartialEq, Eq, Structural)]
pub struct SigAction {
    /// Handler.
    pub handler: SignalHandler,
    /// Flags.
    pub flags: u64,
    /// Restorer function.
    pub restorer: u64,
    /// Signal mask during handler.
    pub mask: u64,
}

/// The action every signal starts with: default handler, no flags.
pub open spec fn default_sig_action() -> SigAction {
    SigAction { handler: SignalHandler::Default, flags: 0, restorer: 0, mask: 0 }
}

impl Default for SigAction {
    fn default() -> (a: Self)
        ensures
            a == default_sig_action(),
    {
        SigAction { handler: SignalHandler::Default, flags: 0, restorer: 0, mask: 0 }
    }
}

/// Linux sigaction structure (for the syscall interface).
#[derive(Debug, Clone, Copy, Default)]
pub struct LinuxSigAction {
    pub sa_handler: u64,
    pub sa_flags: u64,
    pub sa_restorer: u64,
    pub sa_mask: u64,
}

/// Pending signal.
#[derive(Debug, Clone, Copy)]
pub struct PendingSignal {
    /// Signal number.
    pub signal: Signal,
    /// Signal info.
    pub info: SigInfo,
}

/// Signal info (siginfo_t).
#[derive(Debug, Clone, Copy, Default)]
pub struct SigInfo {
    /// Signal number.
    pub si_signo: i32,
    /// Error number.
    pub si_errno: i32,
    /// Signal code.
    pub si_code: i32,
    /// Sending process ID.
    pub si_pid: i32,
    /// Sending user ID.
    pub si_uid: u32,
    /// Exit status or signal.
    pub si_status: i32,
    /// User time consumed.
    pub si_utime: u64,
    /// System time consumed.
    pub si_stime: u64,
    /// Signal value.
    pub si_value: u64,
    /// Fault address (for SIGSEGV, etc.).
    pub si_addr: u64,
}

/// Alternate signal stack.
#[derive(Debug, Clone, Copy)]
pub struct SignalStack {
    pub ss_sp: u64,
    pub ss_size: u64,
    pub ss_flags: u32,
}

/// A pending signal is delivered unless it is blocked and can be caught.
pub open spec fn deliverable(p: PendingSignal, blocked: u64) -> bool {
    (blocked & signal_bit(p.signal)) == 0 || !spec_can_be_caught(p.signal)
}

/// `i` is the index of the first pending signal that would be delivered.
pub open spec fn is_first_deliverable(pending: Seq<PendingSignal>, blocked: u64, i: int) -> bool {
    &&& 0 <= i < pending.len()
    &&& deliverable(pending[i], blocked)
    &&& forall|j: int| 0 <= j < i ==> !deliverable(#[trigger] pending[j], blocked)
}

/// Some pending signal would be delivered.
pub open spec fn has_deliverable(pending: Seq<PendingSignal>, blocked: u64) -> bool {
    exists|i: int| 0 <= i < pending.len() && deliverable(#[trigger] pending[i], blocked)
}

/// Signal state for a process.
pub struct SignalState {
    handlers: Vec<SigAction>,
    pending: VecDeque<PendingSignal>,
    blocked: u64,
    alt_stack: Option<SignalStack>,
}

impl Default for SignalState {
    fn default() -> (s: Self)
        ensures
            s.handlers_spec() == Seq::new(64, |i: int| default_sig_action()),
            s.pending_spec() == Seq::<PendingSignal>::empty(),
            s.blocked_spec() == 0,
            s.alt_stack_spec() is None,
            s.wf(),
    {
        let mut handlers: Vec<SigAction> = Vec::new();
        let mut i: usize = 0;
        while i < 64
            invariant
                i <= 64,
                handlers@ == Seq::new(i as nat, |k: int| default_sig_action()),
            decreases 64 - i,
        {
            handlers.push(SigAction::default());
            i = i + 1;
            assert(handlers@ =~= Seq::new(i as nat, |k: int| default_sig_action()));
        }
        assert(0u64 & UNBLOCKABLE_MASK == 0) by (bit_vector);
        SignalState { handlers, pending: VecDeque::new(), blocked: 0, alt_stack: None }
    }
}

/// The blocked mask that results from asking for `mask`: SIGKILL and SIGSTOP
/// are removed from it.
pub open spec fn effective_mask(mask: u64) -> u64 {
    mask & !UNBLOCKABLE_MASK
}

/// The handler slot of a signal.
pub open spec fn handler_index(s: Signal) -> int {
    spec_signal_number(s) - 1
}

impl SignalState {
    /// Well-formedness: a handler for each of the 64 signal slots, and
    /// SIGKILL and SIGSTOP never blocked.
    pub closed spec fn wf(&self) -> bool {
        &&& self.handlers@.len() == 64
        &&& self.blocked & UNBLOCKABLE_MASK == 0
    }

    /// Signal handlers, indexed by signal number minus one.
    pub closed spec fn handlers_spec(&self) -> Seq<SigAction> {
        self.handlers@
    }

    /// Pending signals, oldest first.
    pub closed spec fn pending_spec(&self) -> Seq<PendingSignal> {
        self.pending@
    }

    /// Blocked signal mask.
    pub closed spec fn blocked_spec(&self) -> u64 {
        self.blocked
    }

    /// Alternate signal stack.
    pub closed spec fn alt_stack_spec(&self) -> Option<SignalStack> {
        self.alt_stack
    }

    /// Set the handler of a signal; returns the previous one. SIGKILL and
    /// SIGSTOP keep their handler and `None` is returned.
    pub fn set_handler(&mut self, sig: Signal, action: SigAction) -> (r: Option<SigAction>)
        requires
            old(self).wf(),
        ensures
            final(self).wf(),
            spec_can_be_caught(sig) ==> {
                &&& r == Some(old(self).handlers_spec()[handler_index(sig)])
                &&& final(self).handlers_spec() == old(self).handlers_spec().update(
                    handler_index(sig),
                    action,
                )
            },
            !spec_can_be_caught(sig) ==> r is None && final(self).handlers_spec() == old(
                self,
            ).handlers_spec(),
            final(self).handlers_spec().len() == 64,
            spec_can_be_caught(sig) ==> final(self).handlers_spec()[handler_index(sig)] == action,
            forall|t: Signal|
                #![trigger handler_index(t)]
                handler_index(t) != handler_index(sig) ==> final(self).handlers_spec()[handler_index(t)]
                    == old(self).handlers_spec()[handler_index(t)],
            final(self).pending_spec() == old(self).pending_spec(),
            final(self).blocked_spec() == old(self).blocked_spec(),
            final(self).alt_stack_spec() == old(self).alt_stack_spec(),
    {
        if !sig.can_be_caught() {
            return None;
        }
        let idx = (sig.number() - 1) as usize;
        let old_action = self.handlers[idx];
        self.handlers.set(idx, action);
        Some(old_action)
    }

    /// Get the handler of a signal.
    pub fn get_handler(&self, sig: Signal) -> (a: SigAction)
        requires
            self.wf(),
        ensures
            a == self.handlers_spec()[handler_index(sig)],
    {
        let idx = (sig.number() - 1) as usize;
        self.handlers[idx]
    }

    /// Get the blocked signal mask.
    pub fn blocked(&self) -> (m: u64)
        requires
            self.wf(),
        ensures
            m == self.blocked_spec(),
            m & UNBLOCKABLE_MASK == 0,
    {
        self.blocked
    }

    /// Set the blocked signal mask; SIGKILL and SIGSTOP cannot be blocked.
    pub fn set_blocked(&mut self, mask: u64)
        requires
            old(self).wf(),
        ensures
            final(self).wf(),
            final(self).blocked_spec() == effective_mask(mask),
            final(self).handlers_spec() == old(self).handlers_spec(),
            final(self).pending_spec() == old(self).pending_spec(),
            final(self).alt_stack_spec() == old(self).alt_stack_spec(),
    {
        assert((mask & !UNBLOCKABLE_MASK) & UNBLOCKABLE_MASK == 0) by (bit_vector);
        self.blocked = mask & !UNBLOCKABLE_MASK;
    }

    /// Queue a signal; blocked signals stay pending until unblocked.
    pub fn queue_signal(&mut self, signal: Signal, info: SigInfo)
        requires
            old(self).wf(),
        ensures
            final(self).wf(),
            final(self).pending_spec() == old(self).pending_spec().push(
                PendingSignal { signal, info },
            ),
            final(self).handlers_spec() == old(self).handlers_spec(),
            final(self).blocked_spec() == old(self).blocked_spec(),
            final(self).alt_stack_spec() == old(self).alt_stack_spec(),
    {
        self.pending.push_back(PendingSignal { signal, info });
    }

    /// Whether a pending signal is delivered under the current mask.
    fn is_deliverable(&self, p: &PendingSignal) -> (b: bool)
        ensures
            b == deliverable(*p, self.blocked_spec()),
    {
        let bit = 1u64 << ((p.signal.number() - 1) as u64);
        (self.blocked & bit) == 0 || !p.signal.can_be_caught()
    }

    /// Dequeue the first pending signal that is not blocked (SIGKILL and
    /// SIGSTOP are never blocked).
    pub fn dequeue_signal(&mut self) -> (r: Option<PendingSignal>)
        requires
            old(self).wf(),
        ensures
            final(self).wf(),
            r matches Some(p) ==> exists|i: int|
                #[trigger] is_first_deliverable(old(self).pending_spec(), old(self).blocked_spec(), i)
                    && p == old(self).pending_spec()[i] && final(self).pending_spec() == old(
                    self,
                ).pending_spec().remove(i),
            r is None ==> !has_deliverable(old(self).pending_spec(), old(self).blocked_spec())
                && final(self).pending_spec() == old(self).pending_spec(),
            final(self).handlers_spec() == old(self).handlers_spec(),
            final(self).blocked_spec() == old(self).blocked_spec(),
            final(self).alt_stack_spec() == old(self).alt_stack_spec(),
    {
        let mut i: usize = 0;
        while i < self.pending.len()
            invariant
                self.wf(),
                self.pending@ == old(self).pending@,
                self.blocked == old(self).blocked,
                self.handlers@ == old(self).handlers@,
                self.alt_stack == old(self).alt_stack,
                0 <= i <= self.pending@.len(),
                forall|j: int| 0 <= j < i ==> !deliverable(#[trigger] self.pending@[j], self.blocked),
            decreases self.pending@.len() - i,
        {
            let sig = self.pending[i];
            if self.is_deliverable(&sig) {
                let ghost before = self.pending@;
                let removed = self.pending.remove(i);
                assert(is_first_deliverable(before, self.blocked, i as int));
                assert(removed == Some(before[i as int]));
                assert(self.pending@ == before.remove(i as int));
                assert(is_first_deliverable(old(self).pending_spec(), old(self).blocked_spec(), i as int));
                return removed;
            }
            i = i + 1;
        }
        None
    }

    /// Whether some pending signal is not blocked.
    pub fn has_pending(&self) -> (b: bool)
        ensures
            b == has_deliverable(self.pending_spec(), self.blocked_spec()),
    {
        let mut i: usize = 0;
        while i < self.pending.len()
            invariant
                0 <= i <= self.pending@.len(),
                forall|j: int| 0 <= j < i ==> !deliverable(#[trigger] self.pending@[j], self.blocked),
            decreases self.pending@.len() - i,
        {
            let sig = self.pending[i];
            if self.is_deliverable(&sig) {
                return true;
            }
            i = i + 1;
        }
        false
    }

    /// Set the signal mask, returning the previous one; SIGKILL and SIGSTOP
    /// cannot be blocked.
    pub fn set_mask(&mut self, mask: u64) -> (prev: u64)
        requires
            old(self).wf(),
        ensures
            final(self).wf(),
            prev == old(self).blocked_spec(),
            final(self).blocked_spec() == effective_mask(mask),
            final(self).handlers_spec() == old(self).handlers_spec(),
            final(self).pending_spec() == old(self).pending_spec(),
            final(self).alt_stack_spec() == old(self).alt_stack_spec(),
    {
        let old_mask = self.blocked;
        assert((mask & !UNBLOCKABLE_MASK) & UNBLOCKABLE_MASK == 0) by (bit_vector);
        self.blocked = mask & !UNBLOCKABLE_MASK;
        old_mask
    }

    /// Get the signal mask.
    pub fn get_mask(&self) -> (m: u64)
        requires
            self.wf(),
        ensures
            m == self.blocked_spec(),
            m & UNBLOCKABLE_MASK == 0,
    {
        self.blocked
    }

    /// Set the alternate signal stack, returning the previous one.
    pub fn set_alt_stack(&mut self, stack: SignalStack) -> (prev: Option<SignalStack>)
        requires
            old(self).wf(),
        ensures
            final(self).wf(),
            prev == old(self).alt_stack_spec(),
            final(self).alt_stack_spec() == Some(stack),
            final(self).handlers_spec() == old(self).handlers_spec(),
            final(self).pending_spec() == old(self).pending_spec(),
            final(self).blocked_spec() == old(self).blocked_spec(),
    {
        let prev = self.alt_stack;
        self.alt_stack = Some(stack);
        prev
    }

    /// Get the alternate signal stack.
    pub fn get_alt_stack(&self) -> (s: Option<SignalStack>)
        ensures
            s == self.alt_stack_spec(),
    {
        self.alt_stack
    }
}

/// The `siginfo` describing a signal sent by `kill()` from a user process.
pub open spec fn spec_kill_info(sig: Signal, sender_pid: u32, sender_uid: u32) -> SigInfo {
    SigInfo {
        si_signo: spec_signal_number(sig),
        si_errno: 0,
        si_code: 0,
        si_pid: sender_pid as i32,
        si_uid: sender_uid,
        si_status: 0,
        si_utime: 0,
        si_stime: 0,
        si_value: 0,
        si_addr: 0,
    }
}

/// Build the signal info for a signal sent to a process by `kill()`.
pub fn send_signal(target_pid: u32, sig: Signal, sender_pid: u32, sender_uid: u32) -> (i: SigInfo)
    ensures
        i == spec_kill_info(sig, sender_pid, sender_uid),
{
    SigInfo {
        si_signo: sig.number(),
        si_errno: 0,
        si_code: si_code::SI_USER,
        si_pid: sender_pid as i32,
        si_uid: sender_uid,
        si_status: 0,
        si_utime: 0,
        si_stime: 0,
        si_value: 0,
        si_addr: 0,
    }
}

/// Floating point state.
#[derive(Debug, Clone, Copy)]
pub struct FpState {
    pub cwd: u16,
    pub swd: u16,
    pub ftw: u16,
    pub fop: u16,
    pub rip: u64,
    pub rdp: u64,
    pub mxcsr: u32,
    pub mxcsr_mask: u32,
    pub st_space: [u32; 32],
    pub xmm_space: [u32; 64],
    pub reserved2: [u32; 24],
}

impl Default for FpState {
    fn default() -> (s: Self)
        ensures
            s.cwd == 0 && s.swd == 0 && s.ftw == 0 && s.fop == 0 && s.rip == 0 && s.rdp == 0
                && s.mxcsr == 0 && s.mxcsr_mask == 0,
            forall|i: int| 0 <= i < 32 ==> s.st_space@[i] == 0,
            forall|i: int| 0 <= i < 64 ==> s.xmm_space@[i] == 0,
            forall|i: int| 0 <= i < 24 ==> s.reserved2@[i] == 0,
    {
        FpState {
            cwd: 0,
            swd: 0,
            ftw: 0,
            fop: 0,
            rip: 0,
            rdp: 0,
            mxcsr: 0,
            mxcsr_mask: 0,
            st_space: [0u32; 32],
            xmm_space: [0u32; 64],
            reserved2: [0u32; 24],
        }
    }
}

/// Machine context (registers).
#[derive(Debug, Clone, Copy, Default)]
pub struct MContext {
    pub r8: u64,
    pub r9: u64,
    pub r10: u64,
    pub r11: u64,
    pub r12: u64,
    pub r13: u64,
    pub r14: u64,
    pub r15: u64,
    pub rdi: u64,
    pub rsi: u64,
    pub rbp: u64,
    pub rbx: u64,
    pub rdx: u64,
    pub rax: u64,
    pub rcx: u64,
    pub rsp: u64,
    pub rip: u64,
    pub eflags: u64,
    pub cs: u16,
    pub gs: u16,
    pub fs: u16,
    pub __pad0: u16,
    pub err: u64,
    pub trapno: u64,
    pub oldmask: u64,
    pub cr2: u64,
    /// Address of the floating point state.
    pub fpstate: u64,
    pub __reserved1: [u64; 8],
}

/// Stack descriptor (Linux layout).
#[derive(Debug, Clone, Copy, Default)]
pub struct LinuxStackT {
    pub ss_sp: u64,
    pub ss_flags: i32,
    pub ss_size: usize,
}

/// User context.
#[derive(Debug, Clone, Copy)]
pub struct UContext {
    pub uc_flags: u64,
    /// Address of the linked user context.
    pub uc_link: u64,
    pub uc_stack: LinuxStackT,
    pub uc_mcontext: MContext,
    pub uc_sigmask: u64,
    pub __fpregs_mem: FpState,
}

/// The default actions follow the Linux signal table, by signal number:
/// SIGCHLD (17), SIGURG (23) and SIGWINCH (28) are ignored; SIGCONT (18)
/// continues; SIGSTOP, SIGTSTP, SIGTTIN and SIGTTOU (19 to 22) stop;
/// SIGQUIT, SIGILL, SIGTRAP, SIGABRT, SIGBUS, SIGFPE, SIGSEGV, SIGXCPU,
/// SIGXFSZ and SIGSYS (3 to 8, 11, 24, 25, 31) dump core; every other
/// signal, SIGTERM and SIGKILL and the real-time signals among them,
/// terminates.
pub proof fn lemma_default_action_table(s: Signal)
    ensures
        ({
            let n = spec_signal_number(s);
            let a = spec_default_action(s);
            &&& (a == SignalAction::Ignore) <==> (n == 17 || n == 23 || n == 28)
            &&& (a == SignalAction::Continue) <==> n == 18
            &&& (a == SignalAction::Stop) <==> (19 <= n <= 22)
            &&& (a == SignalAction::CoreDump) <==> (3 <= n <= 8 || n == 11 || n == 24 || n == 25 || n == 31)
            &&& (a == SignalAction::Terminate) <==> !(3 <= n <= 8 || n == 11 || 17 <= n <= 25 || n == 28 || n == 31)
        }),
{
}

} // verus!
