//! The compatibility server: configuration, the process table, program
//! start-up, and the decisions of its request loop.
use vstd::prelude::*;
use std::collections::HashMap;
use super::elf_loader::LoadedElf;
use super::errno::LinuxErrno;
use super::process::{
    Process, ProcessState, lemma_segment_regions_end, segment_regions, segments_fit,
    segments_max_end,
};
use super::translator::SyscallTranslator;

verus! {

broadcast use vstd::std_specs::hash::group_hash_axioms;

/// The default path mappings (Linux prefix, Redox prefix).
pub open spec fn default_mappings() -> Seq<(Seq<char>, Seq<char>)> {
    seq![
        ("/"@, "file:/"@),
        ("/dev"@, "file:/dev"@),
        ("/proc"@, "proc:"@),
        ("/sys"@, "sys:"@),
        ("/tmp"@, "file:/tmp"@),
        ("/home"@, "file:/home"@),
    ]
}

/// The mappings as plain values.
pub open spec fn mappings_view(m: Seq<(String, String)>) -> Seq<(Seq<char>, Seq<char>)> {
    m.map_values(|p: (String, String)| (p.0@, p.1@))
}

/// Server configuration.
#[derive(Debug)]
pub struct LacConfig {
    /// Maximum number of processes.
    pub max_processes: usize,
    /// Enable debug logging.
    pub debug: bool,
    /// Default stack size for new processes.
    pub default_stack_size: usize,
    /// Path prefix mappings (Linux path, Redox path).
    pub path_mappings: Vec<(String, String)>,
}

fn mapping(linux: &str, redox: &str) -> (p: (String, String))
    ensures
        p.0@ == linux@,
        p.1@ == redox@,
{
    (linux.to_owned(), redox.to_owned())
}

impl Default for LacConfig {
    /// 1024 processes, no debug output, 8 MiB stacks, and the standard
    /// mappings of `/`, `/dev`, `/proc`, `/sys`, `/tmp` and `/home`.
    fn default() -> (c: Self)
        ensures
            c.max_processes == 1024,
            !c.debug,
            c.default_stack_size == 8 * 1024 * 1024,
            mappings_view(c.path_mappings@) == default_mappings(),
    {
        let mut m: Vec<(String, String)> = Vec::new();
        m.push(mapping("/", "file:/"));
        m.push(mapping("/dev", "file:/dev"));
        m.push(mapping("/proc", "proc:"));
        m.push(mapping("/sys", "sys:"));
        m.push(mapping("/tmp", "file:/tmp"));
        m.push(mapping("/home", "file:/home"));
        let c = LacConfig {
            max_processes: 1024,
            debug: false,
            default_stack_size: 8 * 1024 * 1024,
            path_mappings: m,
        };
        assert(mappings_view(c.path_mappings@) =~= default_mappings());
        c
    }
}

/// Copies the mappings string by string.
fn copy_mappings(m: &Vec<(String, String)>) -> (r: Vec<(String, String)>)
    ensures
        r@ == m@,
{
    let mut r: Vec<(String, String)> = Vec::new();
    let mut i: usize = 0;
    while i < m.len()
        invariant
            0 <= i <= m@.len(),
            r@ == m@.take(i as int),
        decreases m@.len() - i,
    {
        let a = m[i].0.clone();
        let b = m[i].1.clone();
        r.push((a, b));
        assert(r@ =~= m@.take(i as int + 1));
        i = i + 1;
    }
    assert(m@.take(m@.len() as int) =~= m@);
    r
}

/// Server state.
pub struct LacServer {
    config: LacConfig,
    translator: SyscallTranslator,
    processes: HashMap<u32, Process>,
    next_pid: u32,
}

impl LacServer {
    /// The process table.
    pub closed spec fn processes_spec(&self) -> Map<u32, Process> {
        self.processes@
    }

    /// The pid the next process gets.
    pub closed spec fn next_pid_spec(&self) -> u32 {
        self.next_pid
    }

    /// The translator's path mappings.
    pub closed spec fn mappings_spec(&self) -> Seq<(String, String)> {
        self.translator.mappings()
    }

    /// A server with no processes, pids from 1000, and a translator over
    /// the configured mappings.
    pub fn new(config: LacConfig) -> (s: Self)
        ensures
            s.processes_spec() == Map::<u32, Process>::empty(),
            s.next_pid_spec() == 1000,
            s.mappings_spec() == config.path_mappings@,
    {
        let translator = SyscallTranslator::new(copy_mappings(&config.path_mappings));
        LacServer { config, translator, processes: HashMap::new(), next_pid: 1000 }
    }

    /// A new pid (wrapping).
    pub fn alloc_pid(&mut self) -> (pid: u32)
        ensures
            pid == old(self).next_pid_spec(),
            final(self).next_pid_spec() == pid.wrapping_add(1),
            final(self).processes_spec() == old(self).processes_spec(),
            final(self).mappings_spec() == old(self).mappings_spec(),
    {
        let pid = self.next_pid;
        self.next_pid = self.next_pid.wrapping_add(1);
        pid
    }

    /// Registers `process` under its pid, replacing one registered there.
    pub fn register_process(&mut self, process: Process)
        ensures
            final(self).processes_spec() == old(self).processes_spec().insert(process.pid_spec(), process),
            final(self).next_pid_spec() == old(self).next_pid_spec(),
            final(self).mappings_spec() == old(self).mappings_spec(),
    {
        let pid = process.pid();
        self.processes.insert(pid, process);
    }

    /// The process with pid `pid`.
    pub fn get_process(&self, pid: u32) -> (r: Option<&Process>)
        ensures
            self.processes_spec().contains_key(pid) ==> r == Some(&self.processes_spec()[pid]),
            !self.processes_spec().contains_key(pid) ==> r is None,
    {
        self.processes.get(&pid)
    }

    /// Removes and returns the process with pid `pid`.
    pub fn remove_process(&mut self, pid: u32) -> (r: Option<Process>)
        ensures
            final(self).processes_spec() == old(self).processes_spec().remove(pid),
            old(self).processes_spec().contains_key(pid) ==> r == Some(old(self).processes_spec()[pid]),
            !old(self).processes_spec().contains_key(pid) ==> r is None,
            final(self).next_pid_spec() == old(self).next_pid_spec(),
            final(self).mappings_spec() == old(self).mappings_spec(),
    {
        self.processes.remove(&pid)
    }

    /// The syscall translator.
    pub fn translator(&self) -> (t: &SyscallTranslator)
        ensures
            t.mappings() == self.mappings_spec(),
    {
        &self.translator
    }

    /// Starts the program `elf` loaded from `path`: a new process under the
    /// next pid gets the program's segments, a stack with `args` and `env`,
    /// and a running main thread at the entry point; it is registered and
    /// its pid returned.
    pub fn exec(&mut self, path: &str, elf: &LoadedElf, args: &[String], env: &[String]) -> (r: Result<u32, LinuxErrno>)
        requires
            segments_fit(elf.program_headers@),
            segments_max_end(elf.program_headers@) + 0xFFF <= u64::MAX,
        ensures
            r == Ok::<u32, LinuxErrno>(old(self).next_pid_spec()),
            final(self).next_pid_spec() == old(self).next_pid_spec().wrapping_add(1),
            final(self).processes_spec().dom() == old(self).processes_spec().dom().insert(old(self).next_pid_spec()),
            forall|p: u32| p != old(self).next_pid_spec() && #[trigger] old(self).processes_spec().contains_key(p)
                ==> final(self).processes_spec()[p] == old(self).processes_spec()[p],
            ({
                let p = final(self).processes_spec()[old(self).next_pid_spec()];
                &&& p.pid_spec() == old(self).next_pid_spec()
                &&& p.exe_spec()@ == path@
                &&& p.state_spec() == ProcessState::Running
                &&& p.args_spec() == args@
                &&& p.env_spec() == env@
                &&& p.threads_spec().len() == 1
                &&& p.threads_spec()[0].registers_spec().rip == elf.entry_point
            }),
            final(self).mappings_spec() == old(self).mappings_spec(),
    {
        let pid = self.alloc_pid();
        let exe = path.to_owned();
        let mut process = Process::new(pid, exe);
        assert(process.memory_spec().regions_spec() + segment_regions(elf.program_headers@, process.exe_spec())
            =~= segment_regions(elf.program_headers@, process.exe_spec()));
        proof {
            lemma_segment_regions_end(elf.program_headers@, process.exe_spec());
        }
        let r1 = process.setup_memory(elf);
        let r2 = process.setup_stack(args, env);
        let r3 = process.start(elf.entry_point);
        self.register_process(process);
        Ok(pid)
    }
}

/// What reading the next scheme request gave.
#[derive(Debug, Clone, Copy, PartialEq, Eq, Structural)]
pub enum RequestOutcome {
    /// A request arrived.
    Request,
    /// The scheme was closed.
    Closed,
    /// No request is waiting.
    WouldBlock,
    /// Reading failed with this error number.
    Failed(i32),
}

/// What the request loop does next.
#[derive(Debug, Clone, Copy, PartialEq, Eq, Structural)]
pub enum DaemonAction {
    /// Answer the request and read the next one.
    Handle,
    /// Leave the process with status 0.
    Exit,
    /// Wait for the next event.
    WaitForEvent,
    /// Stop with this error number.
    Abort(i32),
}

/// The loop's decision on a read outcome.
pub fn next_action(outcome: RequestOutcome) -> (a: DaemonAction)
    ensures
        outcome == RequestOutcome::Request ==> a == DaemonAction::Handle,
        outcome == RequestOutcome::Closed ==> a == DaemonAction::Exit,
        outcome == RequestOutcome::WouldBlock ==> a == DaemonAction::WaitForEvent,
        outcome matches RequestOutcome::Failed(e) ==> a == DaemonAction::Abort(e),
{
    match outcome {
        RequestOutcome::Request => DaemonAction::Handle,
        RequestOutcome::Closed => DaemonAction::Exit,
        RequestOutcome::WouldBlock => DaemonAction::WaitForEvent,
        RequestOutcome::Failed(e) => DaemonAction::Abort(e),
    }
}

/// The answer to every scheme call: not implemented.
pub fn scheme_call_error() -> (e: LinuxErrno)
    ensures
        e == LinuxErrno::ENOSYS,
{
    LinuxErrno::ENOSYS
}

} // verus!
