use redox_drivers::lcs::elf_loader::{build_auxv, load_elf_from_memory, AuxvType};
use redox_drivers::lcs::errno::LinuxErrno;
use redox_drivers::lcs::ipc::{PipeIpc, ProcStatus, UnixSocketClient};
use redox_drivers::lcs::process::{elf_flags_to_prot, Process, ProcessState};
use redox_drivers::lcs::server::{next_action, scheme_call_error, DaemonAction, LacConfig, LacServer, RequestOutcome};
use redox_drivers::lcs::signal::{
    send_signal, SigAction, SignalAction, SignalHandler, SignalState, Signal, UNBLOCKABLE_MASK,
};
use redox_drivers::lcs::syscall_table::LinuxSyscall;
use redox_drivers::lcs::translator::{
    HostRequest, SyscallContext, SyscallResult, SyscallTranslator, Translation,
};
use redox_drivers::lcs::elf_loader::{parse_would_trap, validate_elf_header};
use redox_drivers::lcs::ipc::{open_request_of, OpenRequest};

fn put16(d: &mut [u8], o: usize, v: u16) {
    d[o..o + 2].copy_from_slice(&v.to_le_bytes());
}
fn put32(d: &mut [u8], o: usize, v: u32) {
    d[o..o + 4].copy_from_slice(&v.to_le_bytes());
}
fn put64(d: &mut [u8], o: usize, v: u64) {
    d[o..o + 8].copy_from_slice(&v.to_le_bytes());
}

/// A static x86-64 executable image with one loadable segment.
fn tiny_elf() -> Vec<u8> {
    let mut d = vec![0u8; 120];
    d[0..4].copy_from_slice(&[0x7f, b'E', b'L', b'F']);
    d[4] = 2;
    d[5] = 1;
    d[6] = 1;
    put16(&mut d, 16, 2);
    put16(&mut d, 18, 62);
    put32(&mut d, 20, 1);
    put64(&mut d, 24, 0x401000);
    put64(&mut d, 32, 64);
    put16(&mut d, 52, 64);
    put16(&mut d, 54, 56);
    put16(&mut d, 56, 1);
    put32(&mut d, 64, 1);
    put32(&mut d, 68, 5);
    put64(&mut d, 72, 0);
    put64(&mut d, 80, 0x400000);
    put64(&mut d, 88, 0x400000);
    put64(&mut d, 96, 0x200);
    put64(&mut d, 104, 0x1800);
    put64(&mut d, 112, 0x1000);
    d
}

#[test]
fn errno_numbers_and_redox_mapping() {
    assert_eq!(LinuxErrno::ENOENT.code(), 2);
    assert_eq!(LinuxErrno::ENOSYS.code(), 38);
    assert_eq!(LinuxErrno::from_redox(32), LinuxErrno::EPIPE);
    assert_eq!(LinuxErrno::from_redox(1000), LinuxErrno::EIO);
    assert_eq!(LinuxErrno::from_redox(LinuxErrno::EINVAL.code() as usize), LinuxErrno::EINVAL);
}

#[test]
fn signal_numbers_names_and_actions() {
    assert_eq!(Signal::from_number(9), Some(Signal::SIGKILL));
    assert_eq!(Signal::from_number(0), None);
    assert_eq!(Signal::from_number(32), None);
    assert_eq!(Signal::from_number(34), Some(Signal::SIGRTMIN));
    assert_eq!(Signal::from_number(65), None);
    assert_eq!(Signal::SIGTERM.number(), 15);
    assert_eq!(Signal::SIGSEGV.name(), "SIGSEGV");
    assert_eq!(Signal::SIGUSR1.to_redox(), Some(10));
    assert_eq!(Signal::SIGSTKFLT.to_redox(), None);
    assert_eq!(Signal::SIGRTMIN.to_redox(), None);
    assert!(!Signal::SIGKILL.can_be_caught());
    assert!(!Signal::SIGSTOP.can_be_caught());
    assert!(Signal::SIGINT.can_be_caught());
    assert_eq!(Signal::SIGSEGV.default_action(), SignalAction::CoreDump);
    assert_eq!(Signal::SIGCHLD.default_action(), SignalAction::Ignore);
    assert_eq!(Signal::SIGCONT.default_action(), SignalAction::Continue);
    assert_eq!(Signal::SIGTSTP.default_action(), SignalAction::Stop);
    assert_eq!(Signal::SIGHUP.default_action(), SignalAction::Terminate);
    for n in 1..=64 {
        if let Some(s) = Signal::from_number(n) {
            assert_eq!(s.number(), n);
        }
    }
}

#[test]
fn signal_state_masks_and_delivery() {
    let mut st = SignalState::default();
    st.set_blocked(u64::MAX);
    assert_eq!(st.blocked() & UNBLOCKABLE_MASK, 0);
    let info = send_signal(1, Signal::SIGUSR1, 42, 1000);
    assert_eq!((info.si_signo, info.si_pid, info.si_uid, info.si_code), (10, 42, 1000, 0));
    st.queue_signal(Signal::SIGUSR1, info);
    assert!(!st.has_pending());
    assert!(st.dequeue_signal().is_none());
    st.queue_signal(Signal::SIGKILL, send_signal(1, Signal::SIGKILL, 42, 1000));
    assert!(st.has_pending());
    assert_eq!(st.dequeue_signal().unwrap().signal, Signal::SIGKILL);
    let prev = st.set_mask(0);
    assert_eq!(prev & (1 << 9), 1 << 9);
    assert_eq!(st.get_mask(), 0);
    assert_eq!(st.dequeue_signal().unwrap().signal, Signal::SIGUSR1);
    let act = SigAction { handler: SignalHandler::Handler(0x1234), flags: 4, restorer: 0, mask: 0 };
    assert_eq!(st.set_handler(Signal::SIGINT, act), Some(SigAction::default()));
    assert_eq!(st.get_handler(Signal::SIGINT), act);
    assert_eq!(st.set_handler(Signal::SIGKILL, act), None);
    assert_eq!(st.get_handler(Signal::SIGKILL), SigAction::default());
}

#[test]
fn syscall_numbers_and_names() {
    assert_eq!(LinuxSyscall::from_number(0), LinuxSyscall::Read);
    assert_eq!(LinuxSyscall::Kill.number(), 62);
    assert_eq!(LinuxSyscall::Futex.name(), "futex");
    assert_eq!(LinuxSyscall::from_number(LinuxSyscall::Eventfd2.number()), LinuxSyscall::Eventfd2);
    assert_eq!(LinuxSyscall::from_number(100_000), LinuxSyscall::Unknown(100_000));
}

#[test]
fn elf_images_are_checked_and_parsed() {
    let d = tiny_elf();
    let elf = load_elf_from_memory(&d).unwrap();
    assert_eq!(elf.entry_point, 0x401000);
    assert_eq!(elf.program_headers.len(), 1);
    assert_eq!(elf.program_headers[0].p_memsz, 0x1800);
    assert!(!elf.is_pie);
    assert!(elf.interpreter.is_none());
    assert_eq!(elf.load_addr, 0x400000);
    assert_eq!(elf.mem_size, 0x1800);
    let mut bad_magic = d.clone();
    bad_magic[1] = b'X';
    assert_eq!(load_elf_from_memory(&bad_magic).err(), Some(LinuxErrno::ENOEXEC));
    let mut arm = d.clone();
    put16(&mut arm, 18, 40);
    assert_eq!(load_elf_from_memory(&arm).err(), Some(LinuxErrno::ENOEXEC));
    assert_eq!(load_elf_from_memory(&d[..100]).err(), Some(LinuxErrno::ENOEXEC));
    assert_eq!(load_elf_from_memory(&d[..10]).err(), Some(LinuxErrno::ENOEXEC));
    let auxv = build_auxv(&elf, 0, 0x400040, 0x7fff0000);
    assert_eq!(auxv.len(), 15);
    assert_eq!(auxv[0], (AuxvType::AtPhdr.value(), 0x400040));
    assert_eq!(auxv[6], (9, 0x401000));
    assert_eq!(auxv[12], (25, 0x7fff0000));
    assert_eq!(auxv[14], (0, 0));
}

#[test]
fn processes_map_segments_and_start() {
    assert_eq!(elf_flags_to_prot(5), 1 | 4);
    assert_eq!(elf_flags_to_prot(6), 1 | 2);
    let elf = load_elf_from_memory(&tiny_elf()).unwrap();
    let mut p = Process::new(1000, "/bin/tiny".to_string());
    assert_eq!(p.state(), ProcessState::Creating);
    assert_eq!((p.pid(), p.ppid(), p.tgid()), (1000, 1, 1000));
    assert_eq!(p.cwd(), "/");
    p.setup_memory(&elf).unwrap();
    assert_eq!(p.brk(), 0x402000);
    assert_eq!(p.set_brk(0x1000), 0x402000);
    assert_eq!(p.set_brk(0x500000), 0x500000);
    p.setup_stack(&["tiny".to_string()], &[]).unwrap();
    p.start(elf.entry_point).unwrap();
    assert_eq!(p.state(), ProcessState::Running);
    let regs = p.main_thread_registers().unwrap();
    assert_eq!(regs.rip, 0x401000);
    assert_eq!(regs.rsp, 0x7fff_ffff_f000 - 8);
    p.exit(3);
    assert_eq!(p.exit_status(), Some(3));
    assert_eq!(p.state(), ProcessState::Zombie);
}

#[test]
fn process_descriptors() {
    let mut p = Process::new(7, "/bin/x".to_string());
    assert_eq!(p.alloc_fd("/tmp/a".to_string(), 0), 3);
    assert_eq!(p.alloc_fd("/tmp/b".to_string(), 0), 4);
    assert_eq!(p.close_fd(3), Ok(()));
    assert_eq!(p.close_fd(3), Err(LinuxErrno::EBADF));
    assert_eq!(p.dup_fd(4), Ok(5));
    assert_eq!(p.dup_fd(99), Err(LinuxErrno::EBADF));
    p.set_blocked_signals(1 << 1);
    assert_eq!(p.blocked_signals(), 1 << 1);
    let act = SigAction { handler: SignalHandler::Ignore, ..SigAction::default() };
    p.set_signal_handler(Signal::SIGTERM, act);
    assert_eq!(p.signal_handler(Signal::SIGTERM), act);
}

#[test]
fn pipes_carry_bytes_in_order_until_closed() {
    let mut ipc = PipeIpc::new();
    let (r, w) = ipc.create_pipe();
    assert_eq!((r, w), (0, 1));
    let mut buf = [0u8; 3];
    assert_eq!(ipc.read(r, &mut buf), Err(LinuxErrno::EAGAIN));
    assert_eq!(ipc.write(w, b"hello"), Ok(5));
    assert_eq!(ipc.read(r, &mut buf), Ok(3));
    assert_eq!(&buf, b"hel");
    assert_eq!(ipc.close(w), Ok(()));
    assert_eq!(ipc.read(r, &mut buf), Ok(2));
    assert_eq!(&buf[..2], b"lo");
    assert_eq!(ipc.read(r, &mut buf), Ok(0));
    assert_eq!(ipc.close(r), Ok(()));
    assert_eq!(ipc.read(r, &mut buf), Err(LinuxErrno::EBADF));
    let (r2, w2) = ipc.create_pipe();
    assert_eq!((r2, w2), (2, 3));
    assert_eq!(ipc.close(r2), Ok(()));
    assert_eq!(ipc.write(w2, b"x"), Err(LinuxErrno::EPIPE));
    assert_eq!(ipc.write(9, b"x"), Err(LinuxErrno::EBADF));
}

#[test]
fn pipes_hold_at_most_their_capacity() {
    let mut ipc = PipeIpc::default();
    let (_, w) = ipc.create_pipe();
    let big = vec![7u8; 70_000];
    assert_eq!(ipc.write(w, &big), Ok(65_536));
    assert_eq!(ipc.write(w, b"more"), Ok(0));
}

#[test]
fn unix_sockets_bind_listen_connect() {
    let mut c = UnixSocketClient::new();
    let s = c.socket();
    assert_eq!(s, 0);
    assert_eq!(c.bind(s, "/tmp/sock"), Ok(()));
    assert_eq!(c.listen("/tmp/sock"), Ok(()));
    assert_eq!(c.listen("/tmp/none"), Err(LinuxErrno::EBADF));
    assert_eq!(c.connect("/tmp/sock"), Ok(1));
    assert_eq!(c.connect("/tmp/none"), Err(LinuxErrno::ENOENT));
    assert_eq!(ProcStatus::default().pid, 0);
}

fn ctx(num: u64, a0: u64, a1: u64, a2: u64) -> SyscallContext {
    SyscallContext { syscall_num: num, arg0: a0, arg1: a1, arg2: a2, ..SyscallContext::default() }
}

fn done(t: Translation) -> SyscallResult {
    match t {
        Translation::Done(r) => r,
        other => panic!("expected a finished call, got {:?}", other),
    }
}

#[test]
fn translator_paths_follow_the_mappings() {
    let t = SyscallTranslator::new(LacConfig::default().path_mappings);
    assert_eq!(t.translate_path("/"), "file:/");
    assert_eq!(t.translate_path("/tmp/x"), "file:/tmp/x");
    assert_eq!(t.translate_path("/proc/1/status"), "proc:/1/status");
    assert_eq!(t.translate_path("/usr/bin"), "file:/usr/bin");
    assert_eq!(t.translate_path("rel"), "file:rel");
}

#[test]
fn translator_dispatches_calls() {
    let mut t = SyscallTranslator::new(LacConfig::default().path_mappings);
    let mut p = Process::new(500, "/bin/x".to_string());
    assert_eq!(done(t.translate(&ctx(1, 1, 0, 5), &mut p, None)), SyscallResult::Success(5));
    assert_eq!(done(t.translate(&ctx(1, 9, 0, 5), &mut p, None)), SyscallResult::Error(LinuxErrno::EBADF));
    assert_eq!(done(t.translate(&ctx(0, 0, 0, 5), &mut p, None)), SyscallResult::Success(0));
    assert_eq!(done(t.translate(&ctx(2, 0, 0, 0), &mut p, None)), SyscallResult::Success(3));
    assert_eq!(done(t.translate(&ctx(3, 3, 0, 0), &mut p, None)), SyscallResult::Success(0));
    assert_eq!(done(t.translate(&ctx(3, 3, 0, 0), &mut p, None)), SyscallResult::Error(LinuxErrno::EBADF));
    assert_eq!(done(t.translate(&ctx(110, 0, 0, 0), &mut p, None)), SyscallResult::Success(1));
    assert_eq!(done(t.translate(&ctx(99_999, 0, 0, 0), &mut p, None)), SyscallResult::NotImplemented);
    match t.translate(&ctx(62, 77, 9, 0), &mut p, None) {
        Translation::Host(HostRequest::Kill { pid, signal }) => assert_eq!((pid, signal), (77, 9)),
        other => panic!("kill should go to the host, got {:?}", other),
    }
    match t.translate(&ctx(62, 0, 15, 0), &mut p, None) {
        Translation::Host(HostRequest::Kill { pid, signal }) => assert_eq!((pid, signal), (500, 15)),
        other => panic!("kill should go to the host, got {:?}", other),
    }
    assert_eq!(done(t.translate(&ctx(62, 1, 16, 0), &mut p, None)), SyscallResult::Error(LinuxErrno::EINVAL));
}

#[test]
fn eventfd_counts_writes() {
    let mut t = SyscallTranslator::new(Vec::new());
    let mut p = Process::new(1, "/bin/x".to_string());
    let fd = match done(t.translate(&ctx(290, 0, 0, 0), &mut p, None)) {
        SyscallResult::Success(fd) => fd as u64,
        other => panic!("eventfd failed: {:?}", other),
    };
    assert_eq!(done(t.translate(&ctx(0, fd, 0, 8), &mut p, None)), SyscallResult::Error(LinuxErrno::EAGAIN));
    assert_eq!(done(t.translate(&ctx(1, fd, 0, 4), &mut p, None)), SyscallResult::Error(LinuxErrno::EINVAL));
    assert_eq!(done(t.translate(&ctx(1, fd, 0, 8), &mut p, None)), SyscallResult::Success(8));
    assert_eq!(done(t.translate(&ctx(0, fd, 0, 8), &mut p, None)), SyscallResult::Success(8));
    assert_eq!(done(t.translate(&ctx(0, fd, 0, 8), &mut p, None)), SyscallResult::Error(LinuxErrno::EAGAIN));
}

#[test]
fn syscall_results_as_raw_values() {
    assert_eq!(SyscallResult::Success(7).to_raw(), 7);
    assert_eq!(SyscallResult::Error(LinuxErrno::EBADF).to_raw(), -9);
    assert_eq!(SyscallResult::NotImplemented.to_raw(), -38);
    assert_eq!(SyscallResult::from_error(2), SyscallResult::Error(LinuxErrno::ENOENT));
    assert_eq!(SyscallResult::from_error(-1), SyscallResult::Error(LinuxErrno::EIO));
}

#[test]
fn server_starts_programs() {
    let config = LacConfig::default();
    assert_eq!(config.max_processes, 1024);
    let mut s = LacServer::new(config);
    assert_eq!(s.alloc_pid(), 1000);
    let elf = load_elf_from_memory(&tiny_elf()).unwrap();
    let pid = s.exec("/bin/tiny", &elf, &["tiny".to_string()], &[]).unwrap();
    assert_eq!(pid, 1001);
    let p = s.get_process(pid).unwrap();
    assert_eq!(p.state(), ProcessState::Running);
    assert_eq!(p.exe_path(), "/bin/tiny");
    assert!(s.get_process(5).is_none());
    assert!(s.remove_process(pid).is_some());
    assert!(s.get_process(pid).is_none());
    assert_eq!(s.translator().translate_path("/sys/x"), "sys:/x");
}

#[test]
fn daemon_loop_decisions() {
    assert_eq!(next_action(RequestOutcome::Request), DaemonAction::Handle);
    assert_eq!(next_action(RequestOutcome::Closed), DaemonAction::Exit);
    assert_eq!(next_action(RequestOutcome::WouldBlock), DaemonAction::WaitForEvent);
    assert_eq!(next_action(RequestOutcome::Failed(5)), DaemonAction::Abort(5));
    assert_eq!(scheme_call_error(), LinuxErrno::ENOSYS);
}

#[test]
fn elf_file_headers_and_trapping_images() {
    let d = tiny_elf();
    let mut header = [0u8; 64];
    header.copy_from_slice(&d[..64]);
    assert_eq!(validate_elf_header(&header), Ok(()));
    let mut shared = header;
    shared[16] = 3;
    assert_eq!(validate_elf_header(&shared), Ok(()));
    let mut core = header;
    core[16] = 4;
    assert_eq!(validate_elf_header(&core), Err(LinuxErrno::ENOEXEC));
    let mut class32 = header;
    class32[4] = 1;
    assert_eq!(validate_elf_header(&class32), Err(LinuxErrno::ENOEXEC));
    let mut arm = header;
    arm[18] = 40;
    assert_eq!(validate_elf_header(&arm), Ok(()));

    assert!(!parse_would_trap(&d));
    assert!(!parse_would_trap(&d[..10]));
    let mut overflowing = d.clone();
    let ph = 64;
    put32(&mut overflowing, ph, 1);
    put64(&mut overflowing, ph + 16, u64::MAX);
    put64(&mut overflowing, ph + 40, 1);
    assert!(parse_would_trap(&overflowing));
}

#[test]
fn scheme_open_requests_follow_linux_flags() {
    let r = open_request_of(0);
    assert_eq!(r, OpenRequest { read: true, write: false, create: false, truncate: false, append: false });
    let w = open_request_of(1 | 0o2000);
    assert_eq!(w, OpenRequest { read: false, write: true, create: false, truncate: false, append: true });
    let rw = open_request_of(2 | 0o100 | 0o1000);
    assert_eq!(rw, OpenRequest { read: true, write: true, create: true, truncate: true, append: false });
}
