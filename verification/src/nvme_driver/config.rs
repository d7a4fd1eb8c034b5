//! Driver configuration: the settings, their defaults, how settings given
//! as text are read, and how many I/O queues the driver creates.
use vstd::prelude::*;
use vstd::string::StrSliceExecFns;
use crate::inteld::gal_backend::{parse_u64, parse_u64_spec};

verus! {

/// The I/O scheduler the driver uses.
#[derive(Debug, Clone, Copy, PartialEq, Eq, Structural)]
pub enum IoSchedulerType {
    /// No scheduling, direct submission.
    Direct,
    /// Round-robin across queues.
    RoundRobin,
    /// CPU affinity-based.
    CpuAffinity,
    /// Priority-based.
    Priority,
    /// Deadline-based.
    Deadline,
}

/// Driver configuration.
#[derive(Debug, Clone, Copy, PartialEq, Eq, Structural)]
pub struct DriverConfig {
    /// Number of I/O queues (0: one per CPU).
    pub num_queues: usize,
    /// Queue depth (commands per queue).
    pub queue_depth: u16,
    /// Poll for completions instead of waiting for interrupts.
    pub polling_mode: bool,
    /// Polling interval in microseconds.
    pub poll_interval_us: u64,
    /// Zero-copy transfers.
    pub zero_copy: bool,
    /// NUMA-aware queue allocation.
    pub numa_aware: bool,
    /// Maximum concurrent commands per queue.
    pub max_concurrent_cmds: u32,
    /// I/O scheduler.
    pub scheduler: IoSchedulerType,
}

/// The default configuration.
pub open spec fn default_config() -> DriverConfig {
    DriverConfig {
        num_queues: 0,
        queue_depth: 1024,
        polling_mode: false,
        poll_interval_us: 10,
        zero_copy: true,
        numa_aware: true,
        max_concurrent_cmds: 256,
        scheduler: IoSchedulerType::CpuAffinity,
    }
}

impl Default for DriverConfig {
    fn default() -> (c: Self)
        ensures
            c == default_config(),
    {
        DriverConfig {
            num_queues: 0,
            queue_depth: 1024,
            polling_mode: false,
            poll_interval_us: 10,
            zero_copy: true,
            numa_aware: true,
            max_concurrent_cmds: 256,
            scheduler: IoSchedulerType::CpuAffinity,
        }
    }
}

/// What `str::to_lowercase` gives for a text.
pub uninterp spec fn lowercase_of(s: Seq<char>) -> Seq<char>;

/// `c` with ASCII capitals made small.
pub open spec fn ascii_lower_char(c: char) -> char {
    if 'A' <= c <= 'Z' {
        ((c as u32) + 32) as char
    } else {
        c
    }
}

/// `str::to_lowercase`: the text in lower case, as Unicode defines it. For
/// ASCII text that is the text with its capitals made small; for other text
/// the result is only named.
#[verifier::external_body]
fn to_lowercase(s: &str) -> (r: String)
    ensures
        r@ == lowercase_of(s@),
        vstd::utf8::is_ascii_chars(s@) ==> r@ == s@.map_values(|c: char| ascii_lower_char(c)),
{
    s.to_lowercase()
}

/// Whether a setting's text turns an option on: `1`, or `true` in any case
/// (`lowered` is the text in lower case).
pub open spec fn flag_on(text: Seq<char>, lowered: Seq<char>) -> bool {
    text == seq!['1'] || lowered == seq!['t', 'r', 'u', 'e']
}

/// Whether a text reads `word`.
fn text_is(text: &str, word: &str) -> (b: bool)
    ensures
        b == (text@ == word@),
{
    let n = word.unicode_len();
    if text.unicode_len() != n {
        return false;
    }
    let mut i: usize = 0;
    while i < n
        invariant
            n == word@.len(),
            n == text@.len(),
            0 <= i <= n,
            forall|j: int| 0 <= j < i ==> text@[j] == word@[j],
        decreases n - i,
    {
        if text.get_char(i) != word.get_char(i) {
            return false;
        }
        i = i + 1;
    }
    assert(text@ =~= word@);
    true
}

/// Whether a setting's text turns an option on, given the text and its
/// lower-case form.
pub fn flag_value(text: &str, lowered: &str) -> (b: bool)
    ensures
        b == flag_on(text@, lowered@),
{
    proof {
        reveal_strlit("1");
        reveal_strlit("true");
        assert("1"@ =~= seq!['1']);
        assert("true"@ =~= seq!['t', 'r', 'u', 'e']);
    }
    text_is(text, "1") || text_is(lowered, "true")
}

/// The scheduler a lower-case name selects; names that select none give
/// the CPU-affinity scheduler.
pub open spec fn scheduler_named(lowered: Seq<char>) -> IoSchedulerType {
    if lowered == seq!['n', 'o', 'n', 'e'] {
        IoSchedulerType::Direct
    } else if lowered == seq!['r', 'o', 'u', 'n', 'd', 'r', 'o', 'b', 'i', 'n'] {
        IoSchedulerType::RoundRobin
    } else if lowered == seq!['p', 'r', 'i', 'o', 'r', 'i', 't', 'y'] {
        IoSchedulerType::Priority
    } else if lowered == seq!['d', 'e', 'a', 'd', 'l', 'i', 'n', 'e'] {
        IoSchedulerType::Deadline
    } else {
        IoSchedulerType::CpuAffinity
    }
}

/// The scheduler a lower-case name selects (`none`, `roundrobin`, `cpu`,
/// `cpuaffinity`, `priority`, `deadline`); others select CPU affinity.
pub fn scheduler_from_lowercase(lowered: &str) -> (t: IoSchedulerType)
    ensures
        t == scheduler_named(lowered@),
{
    proof {
        reveal_strlit("none");
        reveal_strlit("roundrobin");
        reveal_strlit("priority");
        reveal_strlit("deadline");
        assert("none"@ =~= seq!['n', 'o', 'n', 'e']);
        assert("roundrobin"@ =~= seq!['r', 'o', 'u', 'n', 'd', 'r', 'o', 'b', 'i', 'n']);
        assert("priority"@ =~= seq!['p', 'r', 'i', 'o', 'r', 'i', 't', 'y']);
        assert("deadline"@ =~= seq!['d', 'e', 'a', 'd', 'l', 'i', 'n', 'e']);
    }
    if text_is(lowered, "none") {
        IoSchedulerType::Direct
    } else if text_is(lowered, "roundrobin") {
        IoSchedulerType::RoundRobin
    } else if text_is(lowered, "priority") {
        IoSchedulerType::Priority
    } else if text_is(lowered, "deadline") {
        IoSchedulerType::Deadline
    } else {
        IoSchedulerType::CpuAffinity
    }
}

/// The characters of a text.
fn chars_of(s: &str) -> (v: Vec<char>)
    ensures
        v@ == s@,
{
    let n = s.unicode_len();
    let mut v: Vec<char> = Vec::new();
    let mut i: usize = 0;
    while i < n
        invariant
            n == s@.len(),
            0 <= i <= n,
            v@ == s@.take(i as int),
        decreases n - i,
    {
        v.push(s.get_char(i));
        assert(s@.take(i as int + 1) =~= s@.take(i as int).push(s@[i as int]));
        i = i + 1;
    }
    assert(s@.take(n as int) =~= s@);
    v
}

/// A decimal number that fits below `max`, read as the standard library
/// reads unsigned numbers.
pub open spec fn parse_bounded(text: Seq<char>, max: int) -> Option<u64> {
    match parse_u64_spec(text, 10) {
        Some(n) => if n <= max {
            Some(n)
        } else {
            None
        },
        None => None,
    }
}

/// Reads a decimal number no larger than `max`.
fn read_number(text: &str, max: u64) -> (r: Option<u64>)
    ensures
        r == parse_bounded(text@, max as int),
{
    let chars = chars_of(text);
    match parse_u64(&chars, 10) {
        Some(n) => if n <= max {
            Some(n)
        } else {
            None
        },
        None => None,
    }
}

/// The configuration that settings given as text produce, each text given
/// with its lower-case form: a number that does not read leaves the
/// default, a flag is on for `1` or `true`, and the scheduler is chosen by
/// name.
pub open spec fn config_from(
    num_queues: Option<Seq<char>>,
    queue_depth: Option<Seq<char>>,
    polling_mode: Option<(Seq<char>, Seq<char>)>,
    poll_interval_us: Option<Seq<char>>,
    zero_copy: Option<(Seq<char>, Seq<char>)>,
    scheduler: Option<Seq<char>>,
) -> DriverConfig {
    let d = default_config();
    DriverConfig {
        num_queues: match num_queues {
            Some(t) => match parse_bounded(t, usize::MAX as int) {
                Some(n) => n as usize,
                None => d.num_queues,
            },
            None => d.num_queues,
        },
        queue_depth: match queue_depth {
            Some(t) => match parse_bounded(t, u16::MAX as int) {
                Some(n) => n as u16,
                None => d.queue_depth,
            },
            None => d.queue_depth,
        },
        polling_mode: match polling_mode {
            Some((t, l)) => flag_on(t, l),
            None => d.polling_mode,
        },
        poll_interval_us: match poll_interval_us {
            Some(t) => match parse_bounded(t, u64::MAX as int) {
                Some(n) => n,
                None => d.poll_interval_us,
            },
            None => d.poll_interval_us,
        },
        zero_copy: match zero_copy {
            Some((t, l)) => flag_on(t, l),
            None => d.zero_copy,
        },
        scheduler: match scheduler {
            Some(l) => scheduler_named(l),
            None => d.scheduler,
        },
        ..d
    }
}

/// A text and its lower-case form.
pub open spec fn with_lowercase(t: Option<&str>) -> Option<(Seq<char>, Seq<char>)> {
    match t {
        Some(s) => Some((s@, lowercase_of(s@))),
        None => None,
    }
}

/// A text's characters.
pub open spec fn text_of(t: Option<&str>) -> Option<Seq<char>> {
    match t {
        Some(s) => Some(s@),
        None => None,
    }
}

/// The configuration that the settings given (each `None` where it is not
/// set) produce, starting from the defaults.
pub fn parse_config(
    num_queues: Option<&str>,
    queue_depth: Option<&str>,
    polling_mode: Option<&str>,
    poll_interval_us: Option<&str>,
    zero_copy: Option<&str>,
    scheduler: Option<&str>,
) -> (c: DriverConfig)
    ensures
        c == config_from(
            text_of(num_queues),
            text_of(queue_depth),
            with_lowercase(polling_mode),
            text_of(poll_interval_us),
            with_lowercase(zero_copy),
            match scheduler {
                Some(s) => Some(lowercase_of(s@)),
                None => None,
            },
        ),
{
    let mut config = DriverConfig::default();
    match num_queues {
        Some(t) => match read_number(t, usize::MAX as u64) {
            Some(n) => {
                config.num_queues = n as usize;
            },
            None => {},
        },
        None => {},
    }
    match queue_depth {
        Some(t) => match read_number(t, u16::MAX as u64) {
            Some(n) => {
                config.queue_depth = n as u16;
            },
            None => {},
        },
        None => {},
    }
    match polling_mode {
        Some(t) => {
            let lowered = to_lowercase(t);
            config.polling_mode = flag_value(t, lowered.as_str());
        },
        None => {},
    }
    match poll_interval_us {
        Some(t) => match read_number(t, u64::MAX) {
            Some(n) => {
                config.poll_interval_us = n;
            },
            None => {},
        },
        None => {},
    }
    match zero_copy {
        Some(t) => {
            let lowered = to_lowercase(t);
            config.zero_copy = flag_value(t, lowered.as_str());
        },
        None => {},
    }
    match scheduler {
        Some(t) => {
            let lowered = to_lowercase(t);
            config.scheduler = scheduler_from_lowercase(lowered.as_str());
        },
        None => {},
    }
    config
}

/// `num_cpus::get`: the number of CPUs available to the process, which the
/// crate documents to be at least 1; nothing more is stated of it.
#[verifier::external_body]
fn cpu_count() -> (n: usize)
    ensures
        n >= 1,
{
    num_cpus::get()
}

/// The number of I/O queues for a configuration, `cpus` CPUs and a
/// controller that takes `max_queue_entries` entries per submission queue.
pub open spec fn io_queue_count_spec(num_queues: usize, cpus: usize, max_queue_entries: u16) -> usize {
    let wanted = if num_queues == 0 {
        cpus
    } else {
        num_queues
    };
    if wanted <= max_queue_entries {
        wanted
    } else {
        max_queue_entries as usize
    }
}

/// The number of I/O queues for a configuration on a machine with `cpus`
/// CPUs: the configured number, or one per CPU, at most
/// `max_queue_entries`.
pub fn io_queue_count_for(config: &DriverConfig, cpus: usize, max_queue_entries: u16) -> (n: usize)
    ensures
        n == io_queue_count_spec(config.num_queues, cpus, max_queue_entries),
{
    let wanted = if config.num_queues == 0 {
        cpus
    } else {
        config.num_queues
    };
    if wanted <= max_queue_entries as usize {
        wanted
    } else {
        max_queue_entries as usize
    }
}

/// The number of I/O queues for a configuration on this machine: the CPU
/// count is asked for only when the configuration leaves the number open.
pub fn io_queue_count(config: &DriverConfig, max_queue_entries: u16) -> (n: usize)
    ensures
        exists|cpus: usize| cpus >= 1 && n == io_queue_count_spec(config.num_queues, cpus, max_queue_entries),
{
    let cpus = if config.num_queues == 0 {
        cpu_count()
    } else {
        1
    };
    io_queue_count_for(config, cpus, max_queue_entries)
}

} // verus!
