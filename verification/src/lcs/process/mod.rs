//! Processes of the compatibility layer: identity, state, memory map,
//! threads, signal state and file descriptors.
pub mod map_flags;
pub mod prot_flags;

use vstd::prelude::*;
use std::collections::HashMap;
use super::elf_loader::{LoadedElf, ProgramHeader};
use super::elf_loader::pf_flags::{PF_R, PF_W, PF_X};
use super::elf_loader::pt_type::PT_LOAD;
use super::errno::LinuxErrno;
use super::signal::{
    SigAction, Signal, SignalState, effective_mask, handler_index, spec_can_be_caught,
};
use self::map_flags::{MAP_GROWSDOWN, MAP_PRIVATE, MAP_STACK};
use self::prot_flags::{PROT_EXEC, PROT_READ, PROT_WRITE};

verus! {

broadcast use vstd::std_specs::hash::group_hash_axioms;

/// Process state.
#[derive(Debug, Clone, Copy, PartialEq, Eq, Structural)]
pub enum ProcessState {
    /// Process is being created.
    Creating,
    /// Process is ready to run.
    Ready,
    /// Process is running.
    Running,
    /// Process is blocked waiting for something.
    Blocked,
    /// Process is stopped (e.g. by SIGSTOP).
    Stopped,
    /// Process has exited.
    Zombie,
    /// Process has been fully cleaned up.
    Dead,
}

/// Thread state.
#[derive(Debug, Clone, Copy, PartialEq, Eq, Structural)]
pub enum ThreadState {
    Running,
    Interruptible,
    Uninterruptible,
    Stopped,
    Zombie,
}

/// CPU register state (x86_64).
#[derive(Debug, Clone, Copy, PartialEq, Eq, Structural)]
pub struct RegisterState {
    pub rax: u64,
    pub rbx: u64,
    pub rcx: u64,
    pub rdx: u64,
    pub rsi: u64,
    pub rdi: u64,
    pub rbp: u64,
    pub rsp: u64,
    pub r8: u64,
    pub r9: u64,
    pub r10: u64,
    pub r11: u64,
    pub r12: u64,
    pub r13: u64,
    pub r14: u64,
    pub r15: u64,
    pub rip: u64,
    pub rflags: u64,
    pub cs: u64,
    pub ss: u64,
    pub ds: u64,
    pub es: u64,
    pub fs: u64,
    pub gs: u64,
    pub fs_base: u64,
    pub gs_base: u64,
}

/// All registers zero.
pub open spec fn zero_registers() -> RegisterState {
    RegisterState {
        rax: 0, rbx: 0, rcx: 0, rdx: 0, rsi: 0, rdi: 0, rbp: 0, rsp: 0, r8: 0, r9: 0, r10: 0,
        r11: 0, r12: 0, r13: 0, r14: 0, r15: 0, rip: 0, rflags: 0, cs: 0, ss: 0, ds: 0, es: 0,
        fs: 0, gs: 0, fs_base: 0, gs_base: 0,
    }
}

impl Default for RegisterState {
    fn default() -> (r: Self)
        ensures
            r == zero_registers(),
    {
        RegisterState {
            rax: 0, rbx: 0, rcx: 0, rdx: 0, rsi: 0, rdi: 0, rbp: 0, rsp: 0, r8: 0, r9: 0, r10: 0,
            r11: 0, r12: 0, r13: 0, r14: 0, r15: 0, rip: 0, rflags: 0, cs: 0, ss: 0, ds: 0, es: 0,
            fs: 0, gs: 0, fs_base: 0, gs_base: 0,
        }
    }
}

/// Memory region.
#[derive(Debug, Clone)]
pub struct MemoryRegion {
    /// Start address.
    pub start: u64,
    /// End address.
    pub end: u64,
    /// Protection flags.
    pub prot: u32,
    /// Flags.
    pub flags: u32,
    /// File offset (if backed by a file).
    pub offset: u64,
    /// File path (if backed by a file).
    pub path: Option<String>,
}

/// Memory mapping of a process.
pub struct MemoryMap {
    regions: Vec<MemoryRegion>,
    brk: u64,
    start_brk: u64,
    stack_top: u64,
    stack_bottom: u64,
}

impl MemoryMap {
    /// The mapped regions, in mapping order.
    pub closed spec fn regions_spec(&self) -> Seq<MemoryRegion> {
        self.regions@
    }

    /// The program break.
    pub closed spec fn brk_spec(&self) -> u64 {
        self.brk
    }

    /// The initial program break.
    pub closed spec fn start_brk_spec(&self) -> u64 {
        self.start_brk
    }

    /// The stack top.
    pub closed spec fn stack_top_spec(&self) -> u64 {
        self.stack_top
    }

    /// The stack bottom.
    pub closed spec fn stack_bottom_spec(&self) -> u64 {
        self.stack_bottom
    }
}

impl Default for MemoryMap {
    /// No regions; break and stack at 0.
    fn default() -> (m: Self)
        ensures
            m.regions_spec() == Seq::<MemoryRegion>::empty(),
            m.brk_spec() == 0,
            m.start_brk_spec() == 0,
            m.stack_top_spec() == 0,
            m.stack_bottom_spec() == 0,
    {
        MemoryMap { regions: Vec::new(), brk: 0, start_brk: 0, stack_top: 0, stack_bottom: 0 }
    }
}

/// File descriptor of the process table.
#[derive(Debug, Clone)]
pub struct FileDescriptor {
    /// Redox file handle (or scheme path).
    pub path: String,
    /// Open flags.
    pub flags: i32,
    /// Current offset.
    pub offset: u64,
}

/// File descriptor table.
pub struct FdTable {
    files: HashMap<i32, FileDescriptor>,
    next_fd: i32,
    cloexec: HashMap<i32, bool>,
}

impl FdTable {
    /// Open descriptors.
    pub closed spec fn files_spec(&self) -> Map<i32, FileDescriptor> {
        self.files@
    }

    /// The next descriptor number handed out.
    pub closed spec fn next_fd_spec(&self) -> i32 {
        self.next_fd
    }

    /// Close-on-exec flags.
    pub closed spec fn cloexec_spec(&self) -> Map<i32, bool> {
        self.cloexec@
    }
}

impl Default for FdTable {
    /// No descriptors; numbering starts at 3 (0 to 2 are the standard
    /// streams).
    fn default() -> (t: Self)
        ensures
            t.files_spec() == Map::<i32, FileDescriptor>::empty(),
            t.next_fd_spec() == 3,
            t.cloexec_spec() == Map::<i32, bool>::empty(),
    {
        FdTable { files: HashMap::new(), next_fd: 3, cloexec: HashMap::new() }
    }
}

/// Thread within a process.
pub struct Thread {
    tid: u32,
    state: ThreadState,
    tls_ptr: u64,
    clear_child_tid: u64,
    registers: RegisterState,
}

impl Thread {
    /// Thread id.
    pub closed spec fn tid_spec(&self) -> u32 {
        self.tid
    }

    /// Thread state.
    pub closed spec fn state_spec(&self) -> ThreadState {
        self.state
    }

    /// Thread-local storage pointer.
    pub closed spec fn tls_spec(&self) -> u64 {
        self.tls_ptr
    }

    /// Registers.
    pub closed spec fn registers_spec(&self) -> RegisterState {
        self.registers
    }

    /// The thread with registers `regs`, all else unchanged.
    pub closed spec fn with_registers(self, regs: RegisterState) -> Thread {
        Thread { registers: regs, ..self }
    }

    /// A running thread with zeroed registers.
    pub fn new(tid: u32) -> (t: Self)
        ensures
            t.tid_spec() == tid,
            t.state_spec() == ThreadState::Running,
            t.tls_spec() == 0,
            t.registers_spec() == zero_registers(),
    {
        Thread { tid, state: ThreadState::Running, tls_ptr: 0, clear_child_tid: 0, registers: RegisterState::default() }
    }

    /// Thread id.
    pub fn tid(&self) -> (t: u32)
        ensures
            t == self.tid_spec(),
    {
        self.tid
    }

    /// Thread state.
    pub fn state(&self) -> (s: ThreadState)
        ensures
            s == self.state_spec(),
    {
        self.state
    }

    /// Sets the thread state.
    pub fn set_state(&mut self, state: ThreadState)
        ensures
            final(self).state_spec() == state,
            final(self).tid_spec() == old(self).tid_spec(),
            final(self).tls_spec() == old(self).tls_spec(),
            final(self).registers_spec() == old(self).registers_spec(),
    {
        self.state = state;
    }

    /// TLS pointer.
    pub fn tls_ptr(&self) -> (p: u64)
        ensures
            p == self.tls_spec(),
    {
        self.tls_ptr
    }

    /// Sets the TLS pointer.
    pub fn set_tls_ptr(&mut self, ptr: u64)
        ensures
            final(self).tls_spec() == ptr,
            final(self).tid_spec() == old(self).tid_spec(),
            final(self).state_spec() == old(self).state_spec(),
            final(self).registers_spec() == old(self).registers_spec(),
    {
        self.tls_ptr = ptr;
    }

    /// Registers.
    pub fn registers(&self) -> (r: RegisterState)
        ensures
            r == self.registers_spec(),
    {
        self.registers
    }

    /// Sets the registers.
    pub fn set_registers(&mut self, regs: RegisterState)
        ensures
            final(self).registers_spec() == regs,
            final(self).tid_spec() == old(self).tid_spec(),
            final(self).state_spec() == old(self).state_spec(),
            final(self).tls_spec() == old(self).tls_spec(),
    {
        self.registers = regs;
    }
}

/// The protection of an ELF segment: read, write and execute as its flags
/// say.
pub open spec fn prot_of(flags: u32) -> u32 {
    (if flags & PF_R != 0 { PROT_READ } else { 0u32 }) | (if flags & PF_W != 0 {
        PROT_WRITE
    } else {
        0u32
    }) | (if flags & PF_X != 0 { PROT_EXEC } else { 0u32 })
}

/// Converts ELF segment flags to protection flags.
pub fn elf_flags_to_prot(elf_flags: u32) -> (prot: u32)
    ensures
        prot == prot_of(elf_flags),
{
    let read: u32 = if elf_flags & PF_R != 0 { PROT_READ } else { 0 };
    let write: u32 = if elf_flags & PF_W != 0 { PROT_WRITE } else { 0 };
    let exec: u32 = if elf_flags & PF_X != 0 { PROT_EXEC } else { 0 };
    let prot = read | write | exec;
    prot
}

/// The region a loadable segment maps to.
pub open spec fn segment_region(ph: ProgramHeader, exe: String) -> MemoryRegion {
    MemoryRegion {
        start: ph.p_vaddr,
        end: (ph.p_vaddr + ph.p_memsz) as u64,
        prot: prot_of(ph.p_flags),
        flags: MAP_PRIVATE,
        offset: ph.p_offset,
        path: Some(exe),
    }
}

/// The regions of the loadable segments of `phs`, in order.
pub open spec fn segment_regions(phs: Seq<ProgramHeader>, exe: String) -> Seq<MemoryRegion>
    decreases phs.len(),
{
    if phs.len() == 0 {
        Seq::empty()
    } else if phs.last().p_type == PT_LOAD {
        segment_regions(phs.drop_last(), exe).push(segment_region(phs.last(), exe))
    } else {
        segment_regions(phs.drop_last(), exe)
    }
}

/// Every loadable segment ends within the address space.
pub open spec fn segments_fit(phs: Seq<ProgramHeader>) -> bool {
    forall|i: int|
        0 <= i < phs.len() && #[trigger] phs[i].p_type == PT_LOAD ==> phs[i].p_vaddr + phs[i].p_memsz
            <= u64::MAX
}

/// The highest end address of `rs` (0 for no regions).
pub open spec fn max_end(rs: Seq<MemoryRegion>) -> u64
    decreases rs.len(),
{
    if rs.len() == 0 {
        0
    } else {
        let m = max_end(rs.drop_last());
        if rs.last().end > m {
            rs.last().end
        } else {
            m
        }
    }
}

/// The highest end address of the loadable segments of `phs` (0 for
/// none).
pub open spec fn segments_max_end(phs: Seq<ProgramHeader>) -> u64
    decreases phs.len(),
{
    if phs.len() == 0 {
        0
    } else {
        let m = segments_max_end(phs.drop_last());
        let l = phs.last();
        if l.p_type == PT_LOAD && (l.p_vaddr + l.p_memsz) as u64 > m {
            (l.p_vaddr + l.p_memsz) as u64
        } else {
            m
        }
    }
}

/// The regions of the segments end where the segments do, whatever the
/// executable.
pub proof fn lemma_segment_regions_end(phs: Seq<ProgramHeader>, exe: String)
    ensures
        max_end(segment_regions(phs, exe)) == segments_max_end(phs),
    decreases phs.len(),
{
    if phs.len() > 0 {
        lemma_segment_regions_end(phs.drop_last(), exe);
        let rs = segment_regions(phs.drop_last(), exe);
        if phs.last().p_type == PT_LOAD {
            assert(segment_regions(phs, exe).drop_last() =~= rs);
        }
    }
}

/// `x` rounded up to a 4 KiB page.
pub open spec fn page_align_up(x: u64) -> u64 {
    ((x + 0xFFF) as u64) & !0xFFFu64
}

/// Process descriptor.
pub struct Process {
    pid: u32,
    ppid: u32,
    tgid: u32,
    state: ProcessState,
    exe_path: String,
    args: Vec<String>,
    env: Vec<String>,
    cwd: String,
    uid: u32,
    euid: u32,
    gid: u32,
    egid: u32,
    exit_status: Option<i32>,
    memory: MemoryMap,
    signals: SignalState,
    threads: Vec<Thread>,
    fd_table: FdTable,
    start_time: u64,
    cpu_time: u64,
}

impl Process {
    /// Process id.
    pub closed spec fn pid_spec(&self) -> u32 {
        self.pid
    }

    /// Parent process id.
    pub closed spec fn ppid_spec(&self) -> u32 {
        self.ppid
    }

    /// Thread group id.
    pub closed spec fn tgid_spec(&self) -> u32 {
        self.tgid
    }

    /// Process state.
    pub closed spec fn state_spec(&self) -> ProcessState {
        self.state
    }

    /// Executable path.
    pub closed spec fn exe_spec(&self) -> String {
        self.exe_path
    }

    /// Arguments.
    pub closed spec fn args_spec(&self) -> Seq<String> {
        self.args@
    }

    /// Environment.
    pub closed spec fn env_spec(&self) -> Seq<String> {
        self.env@
    }

    /// Working directory.
    pub closed spec fn cwd_spec(&self) -> Seq<char> {
        self.cwd@
    }

    /// User and group ids: (uid, euid, gid, egid).
    pub closed spec fn ids_spec(&self) -> (u32, u32, u32, u32) {
        (self.uid, self.euid, self.gid, self.egid)
    }

    /// Exit status, once exited.
    pub closed spec fn exit_status_spec(&self) -> Option<i32> {
        self.exit_status
    }

    /// Memory map.
    pub closed spec fn memory_spec(&self) -> MemoryMap {
        self.memory
    }

    /// Signal state.
    pub closed spec fn signals_spec(&self) -> SignalState {
        self.signals
    }

    /// Threads, main thread first.
    pub closed spec fn threads_spec(&self) -> Seq<Thread> {
        self.threads@
    }

    /// File descriptor table.
    pub closed spec fn fds_spec(&self) -> FdTable {
        self.fd_table
    }

    /// The process with state `s`, all else unchanged.
    pub closed spec fn with_state(self, s: ProcessState) -> Process {
        Process { state: s, ..self }
    }

    /// The process with working directory `cwd`, all else unchanged.
    pub closed spec fn with_cwd(self, cwd: String) -> Process {
        Process { cwd, ..self }
    }

    /// The process exited with `status`: a zombie with that exit status.
    pub closed spec fn exited(self, status: i32) -> Process {
        Process { exit_status: Some(status), state: ProcessState::Zombie, ..self }
    }

    /// The process invariant: a well-formed signal state.
    pub closed spec fn wf(&self) -> bool {
        self.signals.wf()
    }

    /// A process being created: parent 1 (init), ids 1000, working
    /// directory `/`, empty memory map, default signal state, no threads, no
    /// descriptors.
    pub fn new(pid: u32, exe_path: String) -> (p: Self)
        ensures
            p.wf(),
            p.pid_spec() == pid,
            p.ppid_spec() == 1,
            p.tgid_spec() == pid,
            p.state_spec() == ProcessState::Creating,
            p.exe_spec() == exe_path,
            p.args_spec() == Seq::<String>::empty(),
            p.env_spec() == Seq::<String>::empty(),
            p.cwd_spec() == "/"@,
            p.ids_spec() == (1000u32, 1000u32, 1000u32, 1000u32),
            p.exit_status_spec() is None,
            p.memory_spec().regions_spec() == Seq::<MemoryRegion>::empty(),
            p.memory_spec().brk_spec() == 0,
            p.memory_spec().stack_top_spec() == 0,
            p.signals_spec().blocked_spec() == 0,
            p.signals_spec().pending_spec().len() == 0,
            p.threads_spec() == Seq::<Thread>::empty(),
            p.fds_spec().files_spec() == Map::<i32, FileDescriptor>::empty(),
            p.fds_spec().next_fd_spec() == 3,
    {
        Process {
            pid,
            ppid: 1,
            tgid: pid,
            state: ProcessState::Creating,
            exe_path,
            args: Vec::new(),
            env: Vec::new(),
            cwd: "/".to_owned(),
            uid: 1000,
            euid: 1000,
            gid: 1000,
            egid: 1000,
            exit_status: None,
            memory: MemoryMap::default(),
            signals: SignalState::default(),
            threads: Vec::new(),
            fd_table: FdTable::default(),
            start_time: 0,
            cpu_time: 0,
        }
    }

    /// Process id.
    pub fn pid(&self) -> (r: u32)
        ensures
            r == self.pid_spec(),
    {
        self.pid
    }

    /// Parent process id.
    pub fn ppid(&self) -> (r: u32)
        ensures
            r == self.ppid_spec(),
    {
        self.ppid
    }

    /// Thread group id: the process id.
    pub fn tgid(&self) -> (r: u32)
        ensures
            r == self.tgid_spec(),
    {
        self.tgid
    }

    /// Process state.
    pub fn state(&self) -> (r: ProcessState)
        ensures
            r == self.state_spec(),
    {
        self.state
    }

    /// Sets the process state.
    pub fn set_state(&mut self, state: ProcessState)
        ensures
            *final(self) == old(self).with_state(state),
    {
        self.state = state;
    }

    /// Executable path.
    pub fn exe_path(&self) -> (r: &str)
        ensures
            r@ == self.exe_spec()@,
    {
        self.exe_path.as_str()
    }

    /// Working directory.
    pub fn cwd(&self) -> (r: String)
        ensures
            r@ == self.cwd_spec(),
    {
        self.cwd.clone()
    }

    /// Sets the working directory.
    pub fn set_cwd(&mut self, cwd: String)
        ensures
            *final(self) == old(self).with_cwd(cwd),
    {
        self.cwd = cwd;
    }

    /// User id.
    pub fn uid(&self) -> (r: u32)
        ensures
            r == self.ids_spec().0,
    {
        self.uid
    }

    /// Effective user id.
    pub fn euid(&self) -> (r: u32)
        ensures
            r == self.ids_spec().1,
    {
        self.euid
    }

    /// Group id.
    pub fn gid(&self) -> (r: u32)
        ensures
            r == self.ids_spec().2,
    {
        self.gid
    }

    /// Effective group id.
    pub fn egid(&self) -> (r: u32)
        ensures
            r == self.ids_spec().3,
    {
        self.egid
    }

    /// Maps the loadable segments of `elf` (private, with their protection,
    /// backed by the executable) and sets the program break to the first
    /// page after the highest mapped end.
    pub fn setup_memory(&mut self, elf: &LoadedElf) -> (r: Result<(), LinuxErrno>)
        requires
            segments_fit(elf.program_headers@),
            max_end(old(self).memory_spec().regions_spec() + segment_regions(
                elf.program_headers@,
                old(self).exe_spec(),
            )) + 0xFFF <= u64::MAX,
        ensures
            r is Ok,
            ({
                let rs = old(self).memory_spec().regions_spec() + segment_regions(
                    elf.program_headers@,
                    old(self).exe_spec(),
                );
                &&& final(self).memory_spec().regions_spec() == rs
                &&& final(self).memory_spec().start_brk_spec() == page_align_up(max_end(rs))
                &&& final(self).memory_spec().brk_spec() == page_align_up(max_end(rs))
            }),
            final(self).memory_spec().stack_top_spec() == old(self).memory_spec().stack_top_spec(),
            final(self).memory_spec().stack_bottom_spec() == old(self).memory_spec().stack_bottom_spec(),
            final(self).signals_spec() == old(self).signals_spec(),
            final(self).exe_spec() == old(self).exe_spec(),
            final(self).state_spec() == old(self).state_spec(),
            final(self).threads_spec() == old(self).threads_spec(),
            final(self).wf() == old(self).wf(),
            final(self).pid_spec() == old(self).pid_spec(),
            final(self).args_spec() == old(self).args_spec(),
            final(self).env_spec() == old(self).env_spec(),
    {
        let ghost base = self.memory.regions@;
        let ghost phs = elf.program_headers@;
        let mut i: usize = 0;
        while i < elf.program_headers.len()
            invariant
                phs == elf.program_headers@,
                0 <= i <= phs.len(),
                segments_fit(phs),
                self.memory.regions@ == base + segment_regions(phs.take(i as int), self.exe_path),
                self.exe_path == old(self).exe_path,
                self.memory.stack_top == old(self).memory.stack_top,
                self.memory.stack_bottom == old(self).memory.stack_bottom,
                self.signals == old(self).signals,
                self.state == old(self).state,
                self.threads == old(self).threads,
                self.pid == old(self).pid,
                self.args == old(self).args,
                self.env == old(self).env,
            decreases phs.len() - i,
        {
            let ph = &elf.program_headers[i];
            assert(phs.take(i as int + 1).drop_last() =~= phs.take(i as int));
            assert(phs.take(i as int + 1).last() == phs[i as int]);
            if ph.p_type == PT_LOAD {
                let prot = elf_flags_to_prot(ph.p_flags);
                let region = MemoryRegion {
                    start: ph.p_vaddr,
                    end: ph.p_vaddr + ph.p_memsz,
                    prot,
                    flags: MAP_PRIVATE,
                    offset: ph.p_offset,
                    path: Some(self.exe_path.clone()),
                };
                self.memory.regions.push(region);
                assert(self.memory.regions@ =~= base + segment_regions(phs.take(i as int + 1), self.exe_path));
            } else {
                assert(self.memory.regions@ =~= base + segment_regions(phs.take(i as int + 1), self.exe_path));
            }
            i = i + 1;
        }
        assert(phs.take(phs.len() as int) =~= phs);
        let ghost rs = self.memory.regions@;
        let mut end_addr: u64 = 0;
        let mut k: usize = 0;
        assert(rs.take(0).len() == 0);
        while k < self.memory.regions.len()
            invariant
                rs == self.memory.regions@,
                0 <= k <= rs.len(),
                end_addr == max_end(rs.take(k as int)),
            decreases rs.len() - k,
        {
            assert(rs.take(k as int + 1).drop_last() =~= rs.take(k as int));
            let e = self.memory.regions[k].end;
            if e > end_addr {
                end_addr = e;
            }
            k = k + 1;
        }
        assert(rs.take(rs.len() as int) =~= rs);
        let brk_start = (end_addr + 0xFFF) & !0xFFF;
        self.memory.start_brk = brk_start;
        self.memory.brk = brk_start;
        Ok(())
    }

    /// Records the arguments and environment and maps an 8 MiB private,
    /// grow-down stack ending at `0x7fff_ffff_f000`.
    pub fn setup_stack(&mut self, args: &[String], env: &[String]) -> (r: Result<(), LinuxErrno>)
        ensures
            r is Ok,
            final(self).args_spec() == args@,
            final(self).env_spec() == env@,
            final(self).memory_spec().stack_top_spec() == 0x7fff_ffff_f000u64,
            final(self).memory_spec().stack_bottom_spec() == 0x7fff_ffff_f000u64 - 8 * 1024 * 1024,
            final(self).memory_spec().regions_spec().len() == old(self).memory_spec().regions_spec().len() + 1,
            final(self).memory_spec().regions_spec().drop_last() == old(self).memory_spec().regions_spec(),
            ({
                let s = final(self).memory_spec().regions_spec().last();
                &&& s.start == 0x7fff_ffff_f000u64 - 8 * 1024 * 1024
                &&& s.end == 0x7fff_ffff_f000u64
                &&& s.prot == PROT_READ | PROT_WRITE
                &&& s.flags == MAP_PRIVATE | MAP_GROWSDOWN | MAP_STACK
                &&& s.offset == 0
                &&& s.path matches Some(p) && p@ == "[stack]"@
            }),
            final(self).memory_spec().brk_spec() == old(self).memory_spec().brk_spec(),
            final(self).memory_spec().start_brk_spec() == old(self).memory_spec().start_brk_spec(),
            final(self).signals_spec() == old(self).signals_spec(),
            final(self).state_spec() == old(self).state_spec(),
            final(self).threads_spec() == old(self).threads_spec(),
            final(self).wf() == old(self).wf(),
            final(self).pid_spec() == old(self).pid_spec(),
            final(self).exe_spec() == old(self).exe_spec(),
    {
        self.args = copy_strings(args);
        self.env = copy_strings(env);
        let stack_size: u64 = 8 * 1024 * 1024;
        let stack_top: u64 = 0x7fff_ffff_f000;
        let stack_bottom = stack_top - stack_size;
        self.memory.stack_top = stack_top;
        self.memory.stack_bottom = stack_bottom;
        let ghost before = self.memory.regions@;
        self.memory.regions.push(MemoryRegion {
            start: stack_bottom,
            end: stack_top,
            prot: PROT_READ | PROT_WRITE,
            flags: MAP_PRIVATE | MAP_GROWSDOWN | MAP_STACK,
            offset: 0,
            path: Some("[stack]".to_owned()),
        });
        assert(self.memory.regions@.drop_last() =~= before);
        Ok(())
    }

    /// Starts execution: the main thread (with the process id) begins at
    /// `entry_point` with its stack pointer 8 bytes below the stack top, and
    /// the process runs.
    pub fn start(&mut self, entry_point: u64) -> (r: Result<(), LinuxErrno>)
        requires
            old(self).memory_spec().stack_top_spec() >= 8,
        ensures
            r is Ok,
            final(self).state_spec() == ProcessState::Running,
            final(self).threads_spec().len() == old(self).threads_spec().len() + 1,
            final(self).threads_spec().drop_last() == old(self).threads_spec(),
            ({
                let t = final(self).threads_spec().last();
                &&& t.tid_spec() == old(self).pid_spec()
                &&& t.state_spec() == ThreadState::Running
                &&& t.registers_spec() == (RegisterState {
                    rip: entry_point,
                    rsp: (old(self).memory_spec().stack_top_spec() - 8) as u64,
                    ..zero_registers()
                })
            }),
            final(self).memory_spec() == old(self).memory_spec(),
            final(self).signals_spec() == old(self).signals_spec(),
            final(self).wf() == old(self).wf(),
            final(self).pid_spec() == old(self).pid_spec(),
            final(self).args_spec() == old(self).args_spec(),
            final(self).env_spec() == old(self).env_spec(),
            final(self).exe_spec() == old(self).exe_spec(),
    {
        self.state = ProcessState::Ready;
        let mut main_thread = Thread::new(self.pid);
        main_thread.registers.rip = entry_point;
        main_thread.registers.rsp = self.memory.stack_top - 8;
        let ghost before = self.threads@;
        self.threads.push(main_thread);
        assert(self.threads@.drop_last() =~= before);
        self.state = ProcessState::Running;
        Ok(())
    }

    /// Records the exit status and makes the process a zombie.
    pub fn exit(&mut self, status: i32)
        ensures
            *final(self) == old(self).exited(status),
    {
        self.exit_status = Some(status);
        self.state = ProcessState::Zombie;
    }

    /// Exit status, once exited.
    pub fn exit_status(&self) -> (r: Option<i32>)
        ensures
            r == self.exit_status_spec(),
    {
        self.exit_status
    }

    /// Adds a memory region.
    pub fn add_memory_region(&mut self, region: MemoryRegion)
        ensures
            final(self).memory_spec().regions_spec() == old(self).memory_spec().regions_spec().push(region),
            final(self).memory_spec().brk_spec() == old(self).memory_spec().brk_spec(),
            final(self).memory_spec().start_brk_spec() == old(self).memory_spec().start_brk_spec(),
            final(self).memory_spec().stack_top_spec() == old(self).memory_spec().stack_top_spec(),
            final(self).signals_spec() == old(self).signals_spec(),
            final(self).state_spec() == old(self).state_spec(),
            final(self).wf() == old(self).wf(),
    {
        self.memory.regions.push(region);
    }

    /// Moves the program break to `new_brk` unless that is below the
    /// initial break; returns the break.
    pub fn set_brk(&mut self, new_brk: u64) -> (b: u64)
        ensures
            new_brk >= old(self).memory_spec().start_brk_spec() ==> b == new_brk,
            new_brk < old(self).memory_spec().start_brk_spec() ==> b == old(self).memory_spec().brk_spec(),
            final(self).memory_spec().brk_spec() == b,
            final(self).memory_spec().start_brk_spec() == old(self).memory_spec().start_brk_spec(),
            final(self).memory_spec().regions_spec() == old(self).memory_spec().regions_spec(),
            final(self).memory_spec().stack_top_spec() == old(self).memory_spec().stack_top_spec(),
            final(self).signals_spec() == old(self).signals_spec(),
            final(self).state_spec() == old(self).state_spec(),
            final(self).wf() == old(self).wf(),
    {
        if new_brk >= self.memory.start_brk {
            self.memory.brk = new_brk;
        }
        self.memory.brk
    }

    /// Program break.
    pub fn brk(&self) -> (b: u64)
        ensures
            b == self.memory_spec().brk_spec(),
    {
        self.memory.brk
    }

    /// Opens a descriptor for `path` with `flags` at offset 0, numbered by
    /// the table's counter.
    pub fn alloc_fd(&mut self, path: String, flags: i32) -> (fd: i32)
        requires
            old(self).fds_spec().next_fd_spec() < i32::MAX,
        ensures
            fd == old(self).fds_spec().next_fd_spec(),
            final(self).fds_spec().next_fd_spec() == fd + 1,
            final(self).fds_spec().files_spec() == old(self).fds_spec().files_spec().insert(
                fd,
                FileDescriptor { path, flags, offset: 0 },
            ),
            final(self).fds_spec().cloexec_spec() == old(self).fds_spec().cloexec_spec(),
            final(self).signals_spec() == old(self).signals_spec(),
            final(self).memory_spec() == old(self).memory_spec(),
            final(self).wf() == old(self).wf(),
    {
        let fd = self.fd_table.next_fd;
        self.fd_table.next_fd = fd + 1;
        self.fd_table.files.insert(fd, FileDescriptor { path, flags, offset: 0 });
        fd
    }

    /// Closes descriptor `fd`; `EBADF` when it is not open.
    pub fn close_fd(&mut self, fd: i32) -> (r: Result<(), LinuxErrno>)
        ensures
            old(self).fds_spec().files_spec().contains_key(fd) ==> r is Ok
                && final(self).fds_spec().files_spec() == old(self).fds_spec().files_spec().remove(fd)
                && final(self).fds_spec().cloexec_spec() == old(self).fds_spec().cloexec_spec().remove(fd),
            !old(self).fds_spec().files_spec().contains_key(fd) ==> r == Err::<(), LinuxErrno>(LinuxErrno::EBADF)
                && final(self).fds_spec().files_spec() == old(self).fds_spec().files_spec()
                && final(self).fds_spec().cloexec_spec() == old(self).fds_spec().cloexec_spec(),
            final(self).fds_spec().next_fd_spec() == old(self).fds_spec().next_fd_spec(),
            final(self).signals_spec() == old(self).signals_spec(),
            final(self).memory_spec() == old(self).memory_spec(),
            final(self).wf() == old(self).wf(),
    {
        if self.fd_table.files.remove(&fd).is_some() {
            self.fd_table.cloexec.remove(&fd);
            Ok(())
        } else {
            Err(LinuxErrno::EBADF)
        }
    }

    /// Duplicates descriptor `oldfd` onto the next number; `EBADF` when it
    /// is not open.
    pub fn dup_fd(&mut self, oldfd: i32) -> (r: Result<i32, LinuxErrno>)
        requires
            old(self).fds_spec().next_fd_spec() < i32::MAX,
        ensures
            old(self).fds_spec().files_spec().contains_key(oldfd) ==> {
                let n = old(self).fds_spec().next_fd_spec();
                let f = old(self).fds_spec().files_spec()[oldfd];
                &&& r == Ok::<i32, LinuxErrno>(n)
                &&& final(self).fds_spec().next_fd_spec() == n + 1
                &&& final(self).fds_spec().files_spec().dom() == old(self).fds_spec().files_spec().dom().insert(n)
                &&& final(self).fds_spec().files_spec()[n].path@ == f.path@
                &&& final(self).fds_spec().files_spec()[n].flags == f.flags
                &&& final(self).fds_spec().files_spec()[n].offset == f.offset
                &&& forall|k: i32| k != n && #[trigger] old(self).fds_spec().files_spec().contains_key(k)
                    ==> final(self).fds_spec().files_spec()[k] == old(self).fds_spec().files_spec()[k]
            },
            !old(self).fds_spec().files_spec().contains_key(oldfd) ==> r == Err::<i32, LinuxErrno>(LinuxErrno::EBADF)
                && final(self).fds_spec() == old(self).fds_spec(),
            final(self).fds_spec().cloexec_spec() == old(self).fds_spec().cloexec_spec(),
            final(self).signals_spec() == old(self).signals_spec(),
            final(self).memory_spec() == old(self).memory_spec(),
            final(self).wf() == old(self).wf(),
    {
        let copy = match self.fd_table.files.get(&oldfd) {
            Some(old_file) => FileDescriptor {
                path: old_file.path.clone(),
                flags: old_file.flags,
                offset: old_file.offset,
            },
            None => {
                return Err(LinuxErrno::EBADF);
            },
        };
        let newfd = self.fd_table.next_fd;
        self.fd_table.next_fd = newfd + 1;
        self.fd_table.files.insert(newfd, copy);
        Ok(newfd)
    }

    /// The handler of `sig`.
    pub fn signal_handler(&self, sig: Signal) -> (a: SigAction)
        requires
            self.wf(),
        ensures
            a == self.signals_spec().handlers_spec()[handler_index(sig)],
    {
        self.signals.get_handler(sig)
    }

    /// Sets the handler of `sig` (SIGKILL and SIGSTOP keep theirs); returns
    /// the previous one.
    pub fn set_signal_handler(&mut self, sig: Signal, action: SigAction) -> (r: Option<SigAction>)
        requires
            old(self).wf(),
        ensures
            final(self).wf(),
            spec_can_be_caught(sig) ==> r == Some(old(self).signals_spec().handlers_spec()[handler_index(sig)])
                && final(self).signals_spec().handlers_spec() == old(self).signals_spec().handlers_spec().update(
                handler_index(sig),
                action,
            ),
            !spec_can_be_caught(sig) ==> r is None && final(self).signals_spec().handlers_spec()
                == old(self).signals_spec().handlers_spec(),
            final(self).signals_spec().blocked_spec() == old(self).signals_spec().blocked_spec(),
            final(self).signals_spec().pending_spec() == old(self).signals_spec().pending_spec(),
            final(self).memory_spec() == old(self).memory_spec(),
            final(self).fds_spec() == old(self).fds_spec(),
            final(self).pid_spec() == old(self).pid_spec(),
            final(self).threads_spec() == old(self).threads_spec(),
    {
        self.signals.set_handler(sig, action)
    }

    /// The blocked signal mask.
    pub fn blocked_signals(&self) -> (m: u64)
        requires
            self.wf(),
        ensures
            m == self.signals_spec().blocked_spec(),
    {
        self.signals.blocked()
    }

    /// Sets the blocked signal mask (SIGKILL and SIGSTOP cannot be blocked).
    pub fn set_blocked_signals(&mut self, mask: u64)
        requires
            old(self).wf(),
        ensures
            final(self).wf(),
            final(self).signals_spec().blocked_spec() == effective_mask(mask),
            final(self).signals_spec().handlers_spec() == old(self).signals_spec().handlers_spec(),
            final(self).signals_spec().pending_spec() == old(self).signals_spec().pending_spec(),
            final(self).memory_spec() == old(self).memory_spec(),
            final(self).threads_spec() == old(self).threads_spec(),
            final(self).fds_spec() == old(self).fds_spec(),
            final(self).pid_spec() == old(self).pid_spec(),
    {
        self.signals.set_blocked(mask);
    }

    /// Registers of the main (first) thread, if there is one.
    pub fn main_thread_registers(&self) -> (r: Option<RegisterState>)
        ensures
            self.threads_spec().len() == 0 ==> r is None,
            self.threads_spec().len() > 0 ==> r == Some(self.threads_spec()[0].registers_spec()),
    {
        if self.threads.len() == 0 {
            None
        } else {
            Some(self.threads[0].registers)
        }
    }

    /// Replaces the registers of the main (first) thread.
    pub fn set_main_thread_registers(&mut self, regs: RegisterState)
        requires
            old(self).threads_spec().len() > 0,
        ensures
            final(self).threads_spec() == old(self).threads_spec().update(
                0,
                old(self).threads_spec()[0].with_registers(regs),
            ),
            final(self).signals_spec() == old(self).signals_spec(),
            final(self).memory_spec() == old(self).memory_spec(),
            final(self).fds_spec() == old(self).fds_spec(),
            final(self).pid_spec() == old(self).pid_spec(),
            final(self).wf() == old(self).wf(),
    {
        let mut t = self.threads.remove(0);
        t.registers = regs;
        self.threads.insert(0, t);
        assert(self.threads@ =~= old(self).threads@.update(0, old(self).threads@[0].with_registers(regs)));
    }
}

/// Clones each string of `src`.
fn copy_strings(src: &[String]) -> (v: Vec<String>)
    ensures
        v@ == src@,
{
    let mut v: Vec<String> = Vec::new();
    let mut i: usize = 0;
    while i < src.len()
        invariant
            0 <= i <= src@.len(),
            v@ == src@.take(i as int),
        decreases src@.len() - i,
    {
        let s = src[i].clone();
        v.push(s);
        assert(v@ =~= src@.take(i as int + 1));
        i = i + 1;
    }
    assert(src@.take(src@.len() as int) =~= src@);
    v
}

} // verus!
